//! The MQTT side of the service: what is published, and when.
use crate::broker;
use crate::broker::options_of;
use crate::broker::Delivery;
use crate::broker::Options;
use crate::broker::Will;
use crate::config::cli_path;
use crate::config::optional_text;
use crate::config::Config;
use crate::config::MetricsConfig;
use crate::discovery;
use crate::discovery::cpu_temp_json;
use crate::discovery::cpu_usage_json;
use crate::discovery::device_json;
use crate::discovery::monitor_json;
use crate::json::json_of;
use crate::json::json_text;
use crate::monitor::MonitorState;
use crate::topics;
use crate::topics::slug_of;
use crate::topics::topic_text;
use crate::topics::Topic;
use rumqttc::MqttOptions;
use serde_json::Value;
use vstd::prelude::*;
use vstd::string::StringExecFns;
use vstd::utf8::encode_utf8;

verus! {

/// How long the connection may be idle before the broker is pinged.
pub const KEEP_ALIVE_SECS: u64 = 10;

/// How many messages may wait to be sent.
pub const REQUEST_CAPACITY: usize = 10;

/// How long a monitor state has to last before it counts.
pub const DEBOUNCE_MILLIS: u64 = 3000;

/// How long to wait after the connection failed.
pub const RECONNECT_MILLIS: u64 = 1000;

/// How long the farewell may take.
pub const FAREWELL_MILLIS: u64 = 500;

/// A message to publish.
#[derive(Debug)]
pub struct Message {
    pub topic: String,
    pub payload: String,
    pub delivery: Delivery,
    pub retain: bool,
}

/// A message to publish, as a value.
pub ghost struct MessageView {
    pub topic: Seq<char>,
    pub payload: Seq<char>,
    pub delivery: Delivery,
    pub retain: bool,
}

impl View for Message {
    type V = MessageView;

    open spec fn view(&self) -> MessageView {
        MessageView {
            topic: self.topic@,
            payload: self.payload@,
            delivery: self.delivery,
            retain: self.retain,
        }
    }
}

/// What the service does about an event.
#[derive(Debug)]
pub enum Action {
    /// Publish these messages one after another, up to the first that fails.
    Publish(Vec<Message>),
    /// Publish this message if it can be queued at once, else drop it.
    TryPublish(Message),
    /// Publish this message if it can be queued at once; if so, the event
    /// `TempAnnounced` with this flag follows.
    AnnounceTemp { message: Message, available: bool },
    /// Let `DebounceElapsed` happen after this time, and not before.
    ArmDebounce { millis: u64 },
    /// Wait before going on.
    Pause { millis: u64 },
    /// Publish these messages whatever becomes of each, let the connection
    /// work once, and give up after this time.
    Farewell { messages: Vec<Message>, millis: u64 },
    /// End.
    Stop,
}

/// What the service does about an event, as a value.
pub ghost enum ActionView {
    Publish(Seq<MessageView>),
    TryPublish(MessageView),
    AnnounceTemp { message: MessageView, available: bool },
    ArmDebounce { millis: u64 },
    Pause { millis: u64 },
    Farewell { messages: Seq<MessageView>, millis: u64 },
    Stop,
}

/// Messages as values.
pub open spec fn messages_view(messages: Seq<Message>) -> Seq<MessageView> {
    messages.map_values(|m: Message| m@)
}

impl View for Action {
    type V = ActionView;

    open spec fn view(&self) -> ActionView {
        match self {
            Action::Publish(messages) => ActionView::Publish(messages_view(messages@)),
            Action::TryPublish(message) => ActionView::TryPublish(message@),
            Action::AnnounceTemp { message, available } => ActionView::AnnounceTemp {
                message: message@,
                available: *available,
            },
            Action::ArmDebounce { millis } => ActionView::ArmDebounce { millis: *millis },
            Action::Pause { millis } => ActionView::Pause { millis: *millis },
            Action::Farewell { messages, millis } => ActionView::Farewell {
                messages: messages_view(messages@),
                millis: *millis,
            },
            Action::Stop => ActionView::Stop,
        }
    }
}

/// Actions as values.
pub open spec fn actions_view(actions: Seq<Action>) -> Seq<ActionView> {
    actions.map_values(|a: Action| a@)
}

/// What happens to the service.
#[derive(Debug)]
pub enum Event {
    /// The broker accepted the connection.
    Connected,
    /// The connection did something else.
    OtherPacket,
    /// The connection failed.
    ConnectionLost,
    /// The monitor was seen in a state.
    Monitor(MonitorState),
    /// The time that the debounce was armed for is over.
    DebounceElapsed,
    /// It is time for the metrics: the CPU usage and the CPU temperature as
    /// texts, where they are known.
    Tick { usage: Option<String>, temperature: Option<String> },
    /// Whether there is a CPU temperature was published.
    TempAnnounced(bool),
    /// The service is to end.
    Shutdown,
}

/// Where the service stands between two events.
#[derive(Debug, Clone, Copy)]
pub struct Session {
    /// The monitor state that counts.
    pub current: MonitorState,
    /// A monitor state that was seen and does not count yet.
    pub pending: Option<MonitorState>,
    /// Whether the broker is connected.
    pub connected: bool,
    /// What was last published of whether there is a CPU temperature.
    pub temp_available: Option<bool>,
}

/// Where the CPU temperature is to come from.
#[derive(Debug)]
pub enum TempSource {
    /// From this command line tool.
    Tool(String),
    /// From nowhere: the SDK is not installed.
    Missing,
    /// From nowhere: it is not wanted.
    Disabled,
}

/// Publishes the state of one device.
#[derive(Debug)]
pub struct MqttManager {
    pub device_name: String,
    pub metrics: MetricsConfig,
    /// The command line tool for the CPU temperature, if the SDK is there.
    pub temp_cli: Option<String>,
}

/// A message as this service sends all of its messages: delivered at least
/// once, and kept by the broker.
pub open spec fn retained(topic: Seq<char>, payload: Seq<char>) -> MessageView {
    MessageView { topic, payload, delivery: Delivery::AtLeastOnce, retain: true }
}

/// The text for whether something is available.
pub open spec fn availability_text(available: bool) -> Seq<char> {
    if available {
        "online"@
    } else {
        "offline"@
    }
}

/// The message that the broker is to publish for the device when it is gone.
pub open spec fn last_will(slug: Seq<char>) -> Will {
    Will {
        topic: topic_text(Topic::Availability, slug),
        payload: encode_utf8("offline"@),
        delivery: Delivery::AtLeastOnce,
        retain: true,
    }
}

/// How the broker is addressed under a configuration. Credentials take both a
/// user name and a password.
pub open spec fn connect_options(config: Config) -> Options {
    Options {
        client_id: "watchdesk_"@ + config.device.name@,
        host: config.mqtt.host@,
        port: config.mqtt.port,
        keep_alive_secs: KEEP_ALIVE_SECS,
        clean_session: true,
        credentials: match (config.mqtt.username, config.mqtt.password) {
            (Some(u), Some(p)) => Some((u@, p@)),
            _ => None,
        },
        last_will: Some(last_will(slug_of(config.device.name@))),
    }
}

impl Session {
    /// A pending state is never the one that already counts.
    pub open spec fn wf(self) -> bool {
        self.pending != Some(self.current)
    }

    /// The state that the service starts in: the monitor is taken to be on.
    pub open spec fn initial() -> Session {
        Session {
            current: MonitorState::On,
            pending: None,
            connected: false,
            temp_available: None,
        }
    }

    /// Where the service stands after an event.
    pub open spec fn after(self, event: Event) -> Session {
        match event {
            Event::Connected => Session { connected: true, temp_available: None, ..self },
            Event::OtherPacket => self,
            Event::ConnectionLost => Session { connected: false, ..self },
            Event::Monitor(state) => Session {
                pending: if state == self.current {
                    None
                } else {
                    Some(state)
                },
                ..self
            },
            Event::DebounceElapsed => match self.pending {
                Some(state) => Session { current: state, pending: None, ..self },
                None => self,
            },
            Event::Tick { .. } => self,
            Event::TempAnnounced(available) => Session {
                temp_available: Some(available),
                ..self
            },
            Event::Shutdown => self,
        }
    }

    /// The state that the service starts in.
    pub fn new() -> (res: Session)
        ensures
            res == Session::initial(),
            res.wf(),
    {
        Session { current: MonitorState::On, pending: None, connected: false, temp_available: None }
    }

    /// Whether `DebounceElapsed` may happen.
    pub fn debouncing(&self) -> (res: bool)
        ensures
            res == (self.pending is Some),
    {
        self.pending.is_some()
    }
}

impl MqttManager {
    /// The device's name as it stands in topics.
    pub open spec fn slug_text(self) -> Seq<char> {
        slug_of(self.device_name@)
    }

    /// A message on one of the device's topics.
    pub open spec fn on_topic(self, topic: Topic, payload: Seq<char>) -> MessageView {
        retained(topic_text(topic, self.slug_text()), payload)
    }

    /// What says whether the device is online.
    pub open spec fn online_message(self, online: bool) -> MessageView {
        self.on_topic(Topic::Availability, availability_text(online))
    }

    /// What says whether the monitor is on.
    pub open spec fn state_message(self, state: MonitorState) -> MessageView {
        self.on_topic(Topic::MonitorState, state.text())
    }

    /// What says whether there is a CPU temperature.
    pub open spec fn temp_message(self, available: bool) -> MessageView {
        self.on_topic(Topic::CpuTempAvailability, availability_text(available))
    }

    /// What tells Home Assistant of the monitor.
    pub open spec fn discovery_message(self) -> MessageView {
        self.on_topic(
            Topic::MonitorDiscovery,
            json_text(monitor_json(self.slug_text(), self.device_name@)),
        )
    }

    /// What tells Home Assistant of the CPU sensors that are wanted.
    pub open spec fn cpu_discovery_messages(self) -> Seq<MessageView> {
        (if self.metrics.cpu_usage {
            seq![
                self.on_topic(
                    Topic::CpuUsageDiscovery,
                    json_text(cpu_usage_json(self.slug_text(), self.device_name@)),
                ),
            ]
        } else {
            Seq::empty()
        }) + (if self.metrics.cpu_temp {
            seq![
                self.on_topic(
                    Topic::CpuTempDiscovery,
                    json_text(cpu_temp_json(self.slug_text(), self.device_name@)),
                ),
            ]
        } else {
            Seq::empty()
        })
    }

    /// What a fresh connection is used for: the device is online, its sensors
    /// are these, and its monitor is in this state.
    pub open spec fn greeting(self, state: MonitorState) -> Seq<ActionView> {
        seq![
            ActionView::Publish(seq![self.online_message(true)]),
            ActionView::Publish(seq![self.discovery_message()]),
            ActionView::Publish(self.cpu_discovery_messages()),
            ActionView::Publish(seq![self.state_message(state)]),
        ]
    }

    /// What becomes of the CPU usage.
    pub open spec fn usage_actions(self, session: Session, usage: Option<Seq<char>>) -> Seq<
        ActionView,
    > {
        if self.metrics.cpu_usage && session.connected && usage is Some {
            seq![ActionView::TryPublish(self.on_topic(Topic::CpuUsage, usage->0))]
        } else {
            Seq::empty()
        }
    }

    /// What becomes of the CPU temperature: a reading is published, and
    /// whether there is one is published where that is news.
    pub open spec fn temp_actions(self, session: Session, temperature: Option<Seq<char>>) -> Seq<
        ActionView,
    > {
        if self.metrics.cpu_temp && session.connected {
            (if temperature is Some {
                seq![ActionView::TryPublish(self.on_topic(Topic::CpuTemp, temperature->0))]
            } else {
                Seq::empty()
            }) + (if session.temp_available != Some(temperature is Some) {
                seq![
                    ActionView::AnnounceTemp {
                        message: self.temp_message(temperature is Some),
                        available: temperature is Some,
                    },
                ]
            } else {
                Seq::empty()
            })
        } else {
            Seq::empty()
        }
    }

    /// What the service does when it is to end.
    pub open spec fn farewell(self, session: Session) -> Seq<ActionView> {
        (if session.connected {
            seq![
                ActionView::Farewell {
                    messages: seq![
                        self.state_message(MonitorState::Off),
                        self.online_message(false),
                    ],
                    millis: FAREWELL_MILLIS,
                },
            ]
        } else {
            Seq::empty()
        }) + seq![ActionView::Stop]
    }

    /// What the service does about an event.
    pub open spec fn actions_for(self, session: Session, event: Event) -> Seq<ActionView> {
        match event {
            Event::Connected => self.greeting(session.current),
            Event::OtherPacket => Seq::empty(),
            Event::ConnectionLost => seq![ActionView::Pause { millis: RECONNECT_MILLIS }],
            Event::Monitor(state) => if state == session.current {
                Seq::empty()
            } else {
                seq![ActionView::ArmDebounce { millis: DEBOUNCE_MILLIS }]
            },
            Event::DebounceElapsed => if session.pending is Some && session.connected {
                seq![ActionView::Publish(seq![self.state_message(session.pending->0)])]
            } else {
                Seq::empty()
            },
            Event::Tick { usage, temperature } => self.usage_actions(session, optional_text(usage))
                + self.temp_actions(session, optional_text(temperature)),
            Event::TempAnnounced(_) => Seq::empty(),
            Event::Shutdown => self.farewell(session),
        }
    }

    /// The manager of a configured device, and the options to connect with.
    /// `default_cli_exists` says whether the command line tool for the CPU
    /// temperature lies where the SDK puts it.
    pub fn new(config: &Config, default_cli_exists: bool) -> (res: (MqttManager, MqttOptions))
        ensures
            res.0.device_name@ == config.device.name@,
            res.0.metrics == config.metrics,
            optional_text(res.0.temp_cli) == cli_path(config.metrics, default_cli_exists),
            options_of(res.1) == connect_options(*config),
    {
        let client_id = "watchdesk_".to_owned().concat(config.device.name.as_str());
        let mut options = broker::new_options(
            client_id.as_str(),
            config.mqtt.host.as_str(),
            config.mqtt.port,
        );
        broker::set_keep_alive(&mut options, KEEP_ALIVE_SECS);
        broker::set_clean_session(&mut options, true);
        if let (Some(username), Some(password)) = (&config.mqtt.username, &config.mqtt.password) {
            broker::set_credentials(&mut options, username.as_str(), password.as_str());
        }
        let manager = MqttManager {
            device_name: config.device.name.clone(),
            metrics: config.metrics.clone(),
            temp_cli: config.ryzen_master_cli_path(default_cli_exists),
        };
        let will = broker::new_will(
            manager.availability_topic().as_str(),
            "offline",
            Delivery::AtLeastOnce,
            true,
        );
        broker::set_last_will(&mut options, will);
        (manager, options)
    }

    /// The device's name as it stands in topics.
    pub fn slug(&self) -> (res: String)
        ensures
            res@ == self.slug_text(),
    {
        topics::slug(self.device_name.as_str())
    }

    /// One of the device's topics.
    fn topic(&self, which: Topic) -> (res: String)
        ensures
            res@ == topic_text(which, self.slug_text()),
    {
        topics::topic(which, self.slug().as_str())
    }

    /// The topic of whether the device is online.
    pub fn availability_topic(&self) -> (res: String)
        ensures
            res@ == topic_text(Topic::Availability, self.slug_text()),
    {
        self.topic(Topic::Availability)
    }

    /// The topic of whether the monitor is on.
    pub fn state_topic(&self) -> (res: String)
        ensures
            res@ == topic_text(Topic::MonitorState, self.slug_text()),
    {
        self.topic(Topic::MonitorState)
    }

    /// The topic that tells Home Assistant of the monitor.
    pub fn discovery_topic(&self) -> (res: String)
        ensures
            res@ == topic_text(Topic::MonitorDiscovery, self.slug_text()),
    {
        self.topic(Topic::MonitorDiscovery)
    }

    /// The device that all sensors belong to.
    pub fn device_json(&self) -> (value: Value)
        ensures
            json_of(value) == device_json(self.slug_text(), self.device_name@),
    {
        discovery::device(self.slug().as_str(), self.device_name.as_str())
    }

    /// The discovery document of the monitor.
    pub fn discovery_payload(&self) -> (res: String)
        ensures
            res@ == json_text(monitor_json(self.slug_text(), self.device_name@)),
    {
        discovery::monitor(self.slug().as_str(), self.device_name.as_str())
    }

    /// The topic of the CPU usage.
    pub fn cpu_usage_state_topic(&self) -> (res: String)
        ensures
            res@ == topic_text(Topic::CpuUsage, self.slug_text()),
    {
        self.topic(Topic::CpuUsage)
    }

    /// The topic that tells Home Assistant of the CPU usage.
    pub fn cpu_usage_discovery_topic(&self) -> (res: String)
        ensures
            res@ == topic_text(Topic::CpuUsageDiscovery, self.slug_text()),
    {
        self.topic(Topic::CpuUsageDiscovery)
    }

    /// The discovery document of the CPU usage.
    pub fn cpu_usage_discovery_payload(&self) -> (res: String)
        ensures
            res@ == json_text(cpu_usage_json(self.slug_text(), self.device_name@)),
    {
        discovery::cpu_usage(self.slug().as_str(), self.device_name.as_str())
    }

    /// The topic of the CPU temperature.
    pub fn cpu_temp_state_topic(&self) -> (res: String)
        ensures
            res@ == topic_text(Topic::CpuTemp, self.slug_text()),
    {
        self.topic(Topic::CpuTemp)
    }

    /// The topic of whether there is a CPU temperature, so that it can be
    /// unavailable by itself while the device is online.
    pub fn cpu_temp_availability_topic(&self) -> (res: String)
        ensures
            res@ == topic_text(Topic::CpuTempAvailability, self.slug_text()),
    {
        self.topic(Topic::CpuTempAvailability)
    }

    /// The topic that tells Home Assistant of the CPU temperature.
    pub fn cpu_temp_discovery_topic(&self) -> (res: String)
        ensures
            res@ == topic_text(Topic::CpuTempDiscovery, self.slug_text()),
    {
        self.topic(Topic::CpuTempDiscovery)
    }

    /// The discovery document of the CPU temperature.
    pub fn cpu_temp_discovery_payload(&self) -> (res: String)
        ensures
            res@ == json_text(cpu_temp_json(self.slug_text(), self.device_name@)),
    {
        discovery::cpu_temp(self.slug().as_str(), self.device_name.as_str())
    }

    /// What tells Home Assistant of the CPU sensors that are wanted.
    pub fn publish_cpu_discovery(&self) -> (res: Vec<Message>)
        ensures
            messages_view(res@) == self.cpu_discovery_messages(),
    {
        let mut res: Vec<Message> = Vec::new();
        if self.metrics.cpu_usage {
            res.push(
                message(
                    self.cpu_usage_discovery_topic(),
                    self.cpu_usage_discovery_payload().as_str(),
                ),
            );
        }
        if self.metrics.cpu_temp {
            res.push(
                message(
                    self.cpu_temp_discovery_topic(),
                    self.cpu_temp_discovery_payload().as_str(),
                ),
            );
        }
        assert(messages_view(res@) == self.cpu_discovery_messages());
        res
    }

    /// What says how busy the CPU is.
    pub fn publish_cpu_usage(&self, usage: &str) -> (res: Message)
        ensures
            res@ == self.on_topic(Topic::CpuUsage, usage@),
    {
        message(self.cpu_usage_state_topic(), usage)
    }

    /// What says how warm the CPU is.
    pub fn publish_cpu_temp(&self, temp: &str) -> (res: Message)
        ensures
            res@ == self.on_topic(Topic::CpuTemp, temp@),
    {
        message(self.cpu_temp_state_topic(), temp)
    }

    /// What says whether there is a CPU temperature.
    pub fn publish_cpu_temp_available(&self, available: bool) -> (res: Message)
        ensures
            res@ == self.temp_message(available),
    {
        message(
            self.cpu_temp_availability_topic(),
            if available {
                "online"
            } else {
                "offline"
            },
        )
    }

    /// What says that the device is online.
    pub fn publish_online(&self) -> (res: Message)
        ensures
            res@ == self.online_message(true),
    {
        message(self.availability_topic(), "online")
    }

    /// What tells Home Assistant of the monitor.
    pub fn publish_discovery(&self) -> (res: Message)
        ensures
            res@ == self.discovery_message(),
    {
        message(self.discovery_topic(), self.discovery_payload().as_str())
    }

    /// What says whether the monitor is on.
    pub fn publish_monitor_state(&self, state: MonitorState) -> (res: Message)
        ensures
            res@ == self.state_message(state),
    {
        message(self.state_topic(), state.as_str())
    }

    /// What a fresh connection is used for.
    fn greet(&self, state: MonitorState) -> (res: Vec<Action>)
        ensures
            actions_view(res@) == self.greeting(state),
    {
        let mut res: Vec<Action> = Vec::new();
        res.push(publish_one(self.publish_online()));
        res.push(publish_one(self.publish_discovery()));
        res.push(Action::Publish(self.publish_cpu_discovery()));
        res.push(publish_one(self.publish_monitor_state(state)));
        assert(actions_view(res@) == self.greeting(state));
        res
    }

    /// What becomes of the metrics.
    fn report(
        &self,
        session: &Session,
        usage: &Option<String>,
        temperature: &Option<String>,
    ) -> (res: Vec<Action>)
        ensures
            actions_view(res@) == self.usage_actions(*session, optional_text(*usage))
                + self.temp_actions(*session, optional_text(*temperature)),
    {
        let mut res: Vec<Action> = Vec::new();
        if !session.connected {
            assert(actions_view(res@) == Seq::<ActionView>::empty());
            return res;
        }
        if self.metrics.cpu_usage {
            if let Some(text) = usage {
                res.push(Action::TryPublish(self.publish_cpu_usage(text.as_str())));
            }
        }
        assert(actions_view(res@) == self.usage_actions(*session, optional_text(*usage)));
        if self.metrics.cpu_temp {
            if let Some(text) = temperature {
                res.push(Action::TryPublish(self.publish_cpu_temp(text.as_str())));
            }
            let available = temperature.is_some();
            let known = match session.temp_available {
                Some(last) => last == available,
                None => false,
            };
            if !known {
                res.push(
                    Action::AnnounceTemp {
                        message: self.publish_cpu_temp_available(available),
                        available,
                    },
                );
            }
        }
        assert(actions_view(res@) == self.usage_actions(*session, optional_text(*usage))
            + self.temp_actions(*session, optional_text(*temperature)));
        res
    }

    /// What the service does when it is to end. The monitor's topic is left
    /// with a true value: a PC that shuts down has its monitor off. Where the
    /// broker is not connected it has already published the last will.
    fn part(&self, session: &Session) -> (res: Vec<Action>)
        ensures
            actions_view(res@) == self.farewell(*session),
    {
        let mut res: Vec<Action> = Vec::new();
        if session.connected {
            let mut messages: Vec<Message> = Vec::new();
            messages.push(self.publish_monitor_state(MonitorState::Off));
            messages.push(message(self.availability_topic(), "offline"));
            assert(messages_view(messages@) == seq![
                self.state_message(MonitorState::Off),
                self.online_message(false),
            ]);
            res.push(Action::Farewell { messages, millis: FAREWELL_MILLIS });
        }
        res.push(Action::Stop);
        assert(actions_view(res@) == self.farewell(*session));
        res
    }

    /// Takes an event in: what the service does about it, in this order.
    pub fn step(&self, session: &mut Session, event: &Event) -> (res: Vec<Action>)
        ensures
            *final(session) == old(session).after(*event),
            actions_view(res@) == self.actions_for(*old(session), *event),
            old(session).wf() ==> final(session).wf(),
            *event !is Monitor && *event !is DebounceElapsed ==> final(session).pending == old(
                session,
            ).pending,
            *event !is DebounceElapsed ==> final(session).current == old(session).current,
            *event !is Connected && *event !is ConnectionLost ==> final(session).connected == old(
                session,
            ).connected,
    {
        let mut res: Vec<Action> = Vec::new();
        assert(actions_view(res@) == Seq::<ActionView>::empty());
        match event {
            Event::Connected => {
                session.connected = true;
                session.temp_available = None;
                res = self.greet(session.current);
            },
            Event::OtherPacket => {},
            Event::ConnectionLost => {
                session.connected = false;
                res.push(Action::Pause { millis: RECONNECT_MILLIS });
            },
            Event::Monitor(state) => {
                if *state != session.current {
                    session.pending = Some(*state);
                    res.push(Action::ArmDebounce { millis: DEBOUNCE_MILLIS });
                } else {
                    session.pending = None;
                }
            },
            Event::DebounceElapsed => {
                if let Some(state) = session.pending {
                    session.pending = None;
                    session.current = state;
                    if session.connected {
                        res.push(publish_one(self.publish_monitor_state(state)));
                    }
                }
            },
            Event::Tick { usage, temperature } => {
                res = self.report(session, usage, temperature);
            },
            Event::TempAnnounced(available) => {
                session.temp_available = Some(*available);
            },
            Event::Shutdown => {
                res = self.part(session);
            },
        }
        assert(actions_view(res@) == self.actions_for(*old(session), *event));
        res
    }

    /// Where the CPU temperature is to come from.
    pub fn temp_source(&self) -> (res: TempSource)
        ensures
            match res {
                TempSource::Tool(cli) => self.metrics.cpu_temp && self.temp_cli is Some && cli@
                    == self.temp_cli->0@,
                TempSource::Missing => self.metrics.cpu_temp && self.temp_cli is None,
                TempSource::Disabled => !self.metrics.cpu_temp,
            },
    {
        if !self.metrics.cpu_temp {
            return TempSource::Disabled;
        }
        match &self.temp_cli {
            Some(cli) => TempSource::Tool(cli.clone()),
            None => TempSource::Missing,
        }
    }

    /// Whether the CPU usage is to be sampled at each tick.
    pub fn samples_usage(&self) -> (res: bool)
        ensures
            res == self.metrics.cpu_usage,
    {
        self.metrics.cpu_usage
    }

    /// The time between two ticks, in seconds.
    pub fn poll_secs(&self) -> (res: u64)
        ensures
            res == at_least_one(self.metrics.interval_secs),
    {
        poll_interval(self.metrics.interval_secs)
    }
}

/// An interval in seconds, of at least one second.
pub open spec fn at_least_one(secs: u64) -> u64 {
    if secs == 0 {
        1
    } else {
        secs
    }
}

/// An interval in seconds, of at least one second.
pub fn poll_interval(secs: u64) -> (res: u64)
    ensures
        res == at_least_one(secs),
{
    if secs == 0 {
        1
    } else {
        secs
    }
}

/// A message as this service sends all of its messages.
fn message(topic: String, payload: &str) -> (res: Message)
    ensures
        res@ == retained(topic@, payload@),
{
    Message { topic, payload: payload.to_owned(), delivery: Delivery::AtLeastOnce, retain: true }
}

/// The action that publishes one message.
fn publish_one(message: Message) -> (res: Action)
    ensures
        res@ == ActionView::Publish(seq![message@]),
{
    let mut messages: Vec<Message> = Vec::new();
    messages.push(message);
    assert(messages_view(messages@) == seq![message@]);
    Action::Publish(messages)
}

} // verus!
