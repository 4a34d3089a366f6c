//! The messages that travel over the broker, and what each side asks of the
//! broker: which commands, on which channel, with which arguments, in which
//! order.

use vstd::prelude::*;
use vstd::string::*;
use crate::text::{decimal, format_decimal, opt_text};

verus! {

/// Where the broker is and which exchange, queue and keys to use.
#[derive(Debug, PartialEq, Eq)]
pub struct AmqpConfiguration {
    pub host: String,
    pub port: u16,
    pub exchange: String,
    pub routing_key: String,
    pub queue: String,
    pub reports_routing_key: Option<String>,
}

/// A grading job. The delivery tag is set when the job is received.
#[derive(Debug, PartialEq, Eq)]
pub struct AmqpRequest {
    pub job_name: String,
    pub lab: String,
    pub dir: String,
    pub zip_url: String,
    pub result_queue: String,
    pub opaque: String,
    pub delivery_tag: Option<u64>,
}

/// The result of a grading job. The result queue and the delivery tag are
/// blanked before the message is sent.
#[derive(Debug, PartialEq, Eq)]
pub struct AmqpResponse {
    pub job_name: String,
    pub lab: String,
    pub opaque: String,
    pub yaml_result: String,
    pub result_queue: String,
    pub delivery_tag: u64,
}

/// What a job holds.
pub struct RequestView {
    pub job_name: Seq<char>,
    pub lab: Seq<char>,
    pub dir: Seq<char>,
    pub zip_url: Seq<char>,
    pub result_queue: Seq<char>,
    pub opaque: Seq<char>,
    pub delivery_tag: Option<u64>,
}

/// What a result holds.
pub struct ResponseView {
    pub job_name: Seq<char>,
    pub lab: Seq<char>,
    pub opaque: Seq<char>,
    pub yaml_result: Seq<char>,
    pub result_queue: Seq<char>,
    pub delivery_tag: u64,
}

impl View for AmqpRequest {
    type V = RequestView;

    open spec fn view(&self) -> RequestView {
        RequestView {
            job_name: self.job_name@,
            lab: self.lab@,
            dir: self.dir@,
            zip_url: self.zip_url@,
            result_queue: self.result_queue@,
            opaque: self.opaque@,
            delivery_tag: self.delivery_tag,
        }
    }
}

impl View for AmqpResponse {
    type V = ResponseView;

    open spec fn view(&self) -> ResponseView {
        ResponseView {
            job_name: self.job_name@,
            lab: self.lab@,
            opaque: self.opaque@,
            yaml_result: self.yaml_result@,
            result_queue: self.result_queue@,
            delivery_tag: self.delivery_tag,
        }
    }
}

impl AmqpRequest {
    /// A copy with the same contents.
    pub fn duplicate(&self) -> (r: AmqpRequest)
        ensures
            r == *self,
    {
        AmqpRequest {
            job_name: self.job_name.clone(),
            lab: self.lab.clone(),
            dir: self.dir.clone(),
            zip_url: self.zip_url.clone(),
            result_queue: self.result_queue.clone(),
            opaque: self.opaque.clone(),
            delivery_tag: self.delivery_tag,
        }
    }
}

impl AmqpResponse {
    /// A copy with the same contents.
    pub fn duplicate(&self) -> (r: AmqpResponse)
        ensures
            r == *self,
    {
        AmqpResponse {
            job_name: self.job_name.clone(),
            lab: self.lab.clone(),
            opaque: self.opaque.clone(),
            yaml_result: self.yaml_result.clone(),
            result_queue: self.result_queue.clone(),
            delivery_tag: self.delivery_tag,
        }
    }
}

/// A message to publish; it goes over the wire as JSON.
#[derive(Debug, PartialEq, Eq)]
pub enum Message {
    Request(AmqpRequest),
    Response(AmqpResponse),
}

/// What a message holds.
pub enum MessageView {
    Request(RequestView),
    Response(ResponseView),
}

impl View for Message {
    type V = MessageView;

    open spec fn view(&self) -> MessageView {
        match *self {
            Message::Request(r) => MessageView::Request(r@),
            Message::Response(r) => MessageView::Response(r@),
        }
    }
}

/// A request to the broker.
#[derive(Debug, PartialEq, Eq)]
pub enum BrokerCommand {
    DeclareDirectExchange { exchange: String, durable: bool },
    DeclareQueue { queue: String, durable: bool },
    BindQueue { queue: String, exchange: String, routing_key: String },
    Qos { prefetch_count: u16, global: bool },
    Consume { queue: String, consumer_tag: String },
    Publish { exchange: String, routing_key: String, message: Message },
    Ack { delivery_tag: u64, multiple: bool },
}

/// What a request to the broker holds.
pub enum CommandView {
    DeclareDirectExchange { exchange: Seq<char>, durable: bool },
    DeclareQueue { queue: Seq<char>, durable: bool },
    BindQueue { queue: Seq<char>, exchange: Seq<char>, routing_key: Seq<char> },
    Qos { prefetch_count: u16, global: bool },
    Consume { queue: Seq<char>, consumer_tag: Seq<char> },
    Publish { exchange: Seq<char>, routing_key: Seq<char>, message: MessageView },
    Ack { delivery_tag: u64, multiple: bool },
}

impl View for BrokerCommand {
    type V = CommandView;

    open spec fn view(&self) -> CommandView {
        match *self {
            BrokerCommand::DeclareDirectExchange { exchange, durable } => {
                CommandView::DeclareDirectExchange { exchange: exchange@, durable }
            },
            BrokerCommand::DeclareQueue { queue, durable } => CommandView::DeclareQueue {
                queue: queue@,
                durable,
            },
            BrokerCommand::BindQueue { queue, exchange, routing_key } => CommandView::BindQueue {
                queue: queue@,
                exchange: exchange@,
                routing_key: routing_key@,
            },
            BrokerCommand::Qos { prefetch_count, global } => CommandView::Qos {
                prefetch_count,
                global,
            },
            BrokerCommand::Consume { queue, consumer_tag } => CommandView::Consume {
                queue: queue@,
                consumer_tag: consumer_tag@,
            },
            BrokerCommand::Publish { exchange, routing_key, message } => CommandView::Publish {
                exchange: exchange@,
                routing_key: routing_key@,
                message: message@,
            },
            BrokerCommand::Ack { delivery_tag, multiple } => CommandView::Ack {
                delivery_tag,
                multiple,
            },
        }
    }
}

/// One of the two channels that a service keeps on its connection.
#[derive(Debug, Clone, Copy, PartialEq, Eq, Structural)]
pub enum AmqpChannel {
    /// The channel that deliveries arrive on, and the only one to
    /// acknowledge them on.
    Consumer,
    /// The channel that messages are published on.
    Publisher,
}

/// A command together with the channel to issue it on.
#[derive(Debug, PartialEq, Eq)]
pub struct Step {
    pub channel: AmqpChannel,
    pub command: BrokerCommand,
}

/// What a step holds.
pub struct StepView {
    pub channel: AmqpChannel,
    pub command: CommandView,
}

impl View for Step {
    type V = StepView;

    open spec fn view(&self) -> StepView {
        StepView { channel: self.channel, command: self.command@ }
    }
}

/// The views of a list of steps, in order.
pub open spec fn steps_view(steps: Seq<Step>) -> Seq<StepView> {
    Seq::new(steps.len(), |i: int| steps[i]@)
}

/// The topology that both services set up: a durable direct exchange, the
/// durable work queue, and the binding of one to the other.
pub open spec fn topology(
    channel: AmqpChannel,
    exchange: Seq<char>,
    queue: Seq<char>,
    routing_key: Seq<char>,
) -> Seq<StepView> {
    seq![
        StepView {
            channel,
            command: CommandView::DeclareDirectExchange { exchange, durable: true },
        },
        StepView { channel, command: CommandView::DeclareQueue { queue, durable: true } },
        StepView { channel, command: CommandView::BindQueue { queue, exchange, routing_key } },
    ]
}

impl AmqpChannel {
    /// Declares the exchange and the work queue and binds them.
    pub fn declare_exchange_and_queue(&self, config: &AmqpConfiguration) -> (r: Vec<Step>)
        ensures
            steps_view(r@) == topology(
                *self,
                config.exchange@,
                config.queue@,
                config.routing_key@,
            ),
    {
        let mut r: Vec<Step> = Vec::new();
        r.push(
            Step {
                channel: *self,
                command: BrokerCommand::DeclareDirectExchange {
                    exchange: config.exchange.clone(),
                    durable: true,
                },
            },
        );
        r.push(self.queue_declare_durable(config.queue.as_str()));
        r.push(
            Step {
                channel: *self,
                command: BrokerCommand::BindQueue {
                    queue: config.queue.clone(),
                    exchange: config.exchange.clone(),
                    routing_key: config.routing_key.clone(),
                },
            },
        );
        r
    }

    /// Publishes a message under a routing key on an exchange.
    pub fn basic_publish(&self, exchange: &str, routing_key: &str, data: Message) -> (r: Step)
        ensures
            r@ == (StepView {
                channel: *self,
                command: CommandView::Publish {
                    exchange: exchange@,
                    routing_key: routing_key@,
                    message: data@,
                },
            }),
    {
        Step {
            channel: *self,
            command: BrokerCommand::Publish {
                exchange: exchange.to_owned(),
                routing_key: routing_key.to_owned(),
                message: data,
            },
        }
    }

    /// Acknowledges one delivery, and that one only.
    pub fn basic_ack(&self, delivery_tag: u64) -> (r: Step)
        ensures
            r@ == (StepView {
                channel: *self,
                command: CommandView::Ack { delivery_tag, multiple: false },
            }),
    {
        Step { channel: *self, command: BrokerCommand::Ack { delivery_tag, multiple: false } }
    }

    /// Bounds the unacknowledged deliveries of each consumer of the channel.
    pub fn basic_qos(&self, prefetch_count: u16) -> (r: Step)
        ensures
            r@ == (StepView {
                channel: *self,
                command: CommandView::Qos { prefetch_count, global: false },
            }),
    {
        Step { channel: *self, command: BrokerCommand::Qos { prefetch_count, global: false } }
    }

    /// Declares a durable queue.
    pub fn queue_declare_durable(&self, queue_name: &str) -> (r: Step)
        ensures
            r@ == (StepView {
                channel: *self,
                command: CommandView::DeclareQueue { queue: queue_name@, durable: true },
            }),
    {
        Step {
            channel: *self,
            command: BrokerCommand::DeclareQueue { queue: queue_name.to_owned(), durable: true },
        }
    }

    /// Starts consuming a queue.
    pub fn basic_consume(&self, queue_name: &str, consumer_tag: &str) -> (r: Step)
        ensures
            r@ == (StepView {
                channel: *self,
                command: CommandView::Consume {
                    queue: queue_name@,
                    consumer_tag: consumer_tag@,
                },
            }),
    {
        Step {
            channel: *self,
            command: BrokerCommand::Consume {
                queue: queue_name.to_owned(),
                consumer_tag: consumer_tag.to_owned(),
            },
        }
    }
}

/// The address of the broker's default virtual host.
pub open spec fn connection_uri_of(host: Seq<char>, port: u16) -> Seq<char> {
    "amqp://"@ + host + ":"@ + decimal(port as nat) + "/%2f"@
}

/// What a connection to the broker is made with.
#[derive(Debug, PartialEq, Eq)]
pub struct AmqpConnection {
    /// The address to connect to.
    pub uri: String,
}

impl AmqpConnection {
    /// The connection that a configuration asks for.
    pub fn new(config: &AmqpConfiguration) -> (r: AmqpConnection)
        ensures
            r.uri@ == connection_uri_of(config.host@, config.port),
    {
        let mut uri = "amqp://".to_owned();
        uri.append(config.host.as_str());
        uri.append(":");
        uri.append(format_decimal(config.port as u64).as_str());
        uri.append("/%2f");
        AmqpConnection { uri }
    }
}

/// A message as it arrives from the broker.
#[derive(Debug, PartialEq, Eq)]
pub struct AmqpDelivery {
    pub delivery_tag: u64,
    pub data: Vec<u8>,
}

impl AmqpDelivery {
    /// The tag to acknowledge the delivery with.
    pub fn delivery_tag(&self) -> (r: u64)
        ensures
            r == self.delivery_tag,
    {
        self.delivery_tag
    }
}

/// The prefetch bound for a tester that runs `parallelism` containers at a
/// time: that number where the protocol can carry it, else 1.
pub open spec fn prefetch_for(parallelism: usize) -> u16 {
    if parallelism <= u16::MAX {
        parallelism as u16
    } else {
        1
    }
}

/// Computes the prefetch bound.
pub fn prefetch_count(parallelism: usize) -> (r: u16)
    ensures
        r == prefetch_for(parallelism),
{
    if parallelism <= 65535 {
        parallelism as u16
    } else {
        1
    }
}

/// What the tester's consumer issues before the first delivery: the
/// prefetch bound, then the consumption of the work queue.
pub fn tester_receiver_setup(queue: &str, parallelism: usize) -> (r: Vec<Step>)
    ensures
        steps_view(r@) == seq![
            StepView {
                channel: AmqpChannel::Consumer,
                command: CommandView::Qos {
                    prefetch_count: prefetch_for(parallelism),
                    global: false,
                },
            },
            StepView {
                channel: AmqpChannel::Consumer,
                command: CommandView::Consume { queue: queue@, consumer_tag: "amqp-to-test"@ },
            },
        ],
{
    let channel = AmqpChannel::Consumer;
    let mut r: Vec<Step> = Vec::new();
    r.push(channel.basic_qos(prefetch_count(parallelism)));
    r.push(channel.basic_consume(queue, "amqp-to-test"));
    r
}

/// The job as received: the decoded message with the tag of its delivery.
pub fn tag_request(request: AmqpRequest, delivery_tag: u64) -> (r: AmqpRequest)
    ensures
        r@ == (RequestView { delivery_tag: Some(delivery_tag), ..request@ }),
{
    AmqpRequest {
        job_name: request.job_name,
        lab: request.lab,
        dir: request.dir,
        zip_url: request.zip_url,
        result_queue: request.result_queue,
        opaque: request.opaque,
        delivery_tag: Some(delivery_tag),
    }
}

/// What the tester makes of a delivery: a job where the payload could be
/// decoded, nothing where it could not.
pub fn accept_request(delivery: &AmqpDelivery, decoded: Option<AmqpRequest>) -> (r: Option<
    AmqpRequest,
>)
    ensures
        r is Some <==> decoded is Some,
        r is Some ==> r->0@ == (RequestView {
            delivery_tag: Some(delivery.delivery_tag),
            ..decoded->0@
        }),
{
    match decoded {
        Some(request) => Some(tag_request(request, delivery.delivery_tag())),
        None => None,
    }
}

/// The result as it goes over the wire: without its result queue and its
/// delivery tag, which only serve the sender.
pub open spec fn wire_response(response: ResponseView) -> ResponseView {
    ResponseView { result_queue: Seq::empty(), delivery_tag: 0, ..response }
}

/// The publication of a result under a routing key of the default exchange.
pub open spec fn publication(routing_key: Seq<char>, response: ResponseView) -> StepView {
    StepView {
        channel: AmqpChannel::Publisher,
        command: CommandView::Publish {
            exchange: Seq::empty(),
            routing_key,
            message: MessageView::Response(wire_response(response)),
        },
    }
}

/// What the tester does with a result, in order: publish it on the queue
/// that the job named, acknowledge the job's delivery on the channel it came
/// in on, and, where a reports key is configured, publish the result once
/// more under that key.
pub open spec fn sender_plan(
    response: ResponseView,
    reports_routing_key: Option<Seq<char>>,
) -> Seq<StepView> {
    let publish = publication(response.result_queue, response);
    let ack = StepView {
        channel: AmqpChannel::Consumer,
        command: CommandView::Ack { delivery_tag: response.delivery_tag, multiple: false },
    };
    match reports_routing_key {
        Some(key) => seq![publish, ack, publication(key, response)],
        None => seq![publish, ack],
    }
}

fn wire_copy(response: &AmqpResponse) -> (r: Message)
    ensures
        r@ == MessageView::Response(wire_response(response@)),
{
    Message::Response(
        AmqpResponse {
            job_name: response.job_name.clone(),
            lab: response.lab.clone(),
            opaque: response.opaque.clone(),
            yaml_result: response.yaml_result.clone(),
            result_queue: String::new(),
            delivery_tag: 0,
        },
    )
}

/// The steps that send one result and acknowledge its job.
pub fn sender_steps(response: AmqpResponse, reports_routing_key: &Option<String>) -> (r: Vec<Step>)
    ensures
        steps_view(r@) == sender_plan(response@, opt_text(*reports_routing_key)),
{
    let mut r: Vec<Step> = Vec::new();
    r.push(
        AmqpChannel::Publisher.basic_publish(
            "",
            response.result_queue.as_str(),
            wire_copy(&response),
        ),
    );
    r.push(AmqpChannel::Consumer.basic_ack(response.delivery_tag));
    match reports_routing_key {
        Some(key) => {
            r.push(AmqpChannel::Publisher.basic_publish("", key.as_str(), wire_copy(&response)));
        },
        None => {},
    }
    proof {
        reveal_strlit("");
        assert(""@ =~= Seq::<char>::empty());
    }
    r
}

/// Whether a step publishes a result on the given queue of the default
/// exchange.
pub open spec fn publishes_on(step: StepView, queue: Seq<char>) -> bool {
    step.command matches CommandView::Publish { exchange, routing_key, message }
        && exchange.len() == 0 && routing_key == queue && message is Response
}

/// The result that a step publishes.
pub open spec fn published(step: StepView) -> ResponseView {
    step.command->Publish_message->Response_0
}

/// Whether a step acknowledges a delivery.
pub open spec fn acknowledges(step: StepView) -> bool {
    step.command is Ack
}

/// The order of publishing and acknowledging. Whatever the result, the first
/// step publishes it on the queue that the job named, with its report and
/// its opaque payload unchanged; exactly one step acknowledges; that step
/// names the job's delivery and no other; it goes out on the consumer
/// channel, as no other step does; and it comes after the publication.
pub proof fn ack_follows_publish(response: ResponseView, reports_routing_key: Option<Seq<char>>)
    ensures
        ({
            let plan = sender_plan(response, reports_routing_key);
            &&& plan.len() >= 2
            &&& publishes_on(plan[0], response.result_queue)
            &&& published(plan[0]).opaque == response.opaque
            &&& published(plan[0]).yaml_result == response.yaml_result
            &&& plan[1].command == (CommandView::Ack {
                delivery_tag: response.delivery_tag,
                multiple: false,
            })
            &&& forall|i: int|
                0 <= i < plan.len() && acknowledges(#[trigger] plan[i]) ==> i == 1
            &&& forall|i: int|
                0 <= i < plan.len() ==> ((#[trigger] plan[i]).channel == AmqpChannel::Consumer
                    <==> acknowledges(plan[i]))
        }),
{
}

/// The step with which the dispatcher publishes a job on the work exchange.
pub fn publish_request(config: &AmqpConfiguration, request: AmqpRequest) -> (r: Step)
    ensures
        r@ == (StepView {
            channel: AmqpChannel::Publisher,
            command: CommandView::Publish {
                exchange: config.exchange@,
                routing_key: config.routing_key@,
                message: MessageView::Request(request@),
            },
        }),
{
    AmqpChannel::Publisher.basic_publish(
        config.exchange.as_str(),
        config.routing_key.as_str(),
        Message::Request(request),
    )
}

/// What the dispatcher's consumer issues before the first delivery: the
/// durable result queue, then the consumption of it.
pub fn dispatcher_receiver_setup(result_queue: &str) -> (r: Vec<Step>)
    ensures
        steps_view(r@) == seq![
            StepView {
                channel: AmqpChannel::Consumer,
                command: CommandView::DeclareQueue { queue: result_queue@, durable: true },
            },
            StepView {
                channel: AmqpChannel::Consumer,
                command: CommandView::Consume {
                    queue: result_queue@,
                    consumer_tag: "gitlab-to-amqp"@,
                },
            },
        ],
{
    let channel = AmqpChannel::Consumer;
    let mut r: Vec<Step> = Vec::new();
    r.push(channel.queue_declare_durable(result_queue));
    r.push(channel.basic_consume(result_queue, "gitlab-to-amqp"));
    r
}

/// The acknowledgement that the dispatcher owes for a result delivery. It
/// is made from the delivery alone, before anything is known of what the
/// delivery carries: a result is acknowledged on receipt, on the channel it
/// came in on, whether or not its payload can be decoded afterwards.
pub fn acknowledge_response(delivery: &AmqpDelivery) -> (r: Step)
    ensures
        r@ == (StepView {
            channel: AmqpChannel::Consumer,
            command: CommandView::Ack { delivery_tag: delivery.delivery_tag, multiple: false },
        }),
{
    AmqpChannel::Consumer.basic_ack(delivery.delivery_tag())
}

} // verus!
