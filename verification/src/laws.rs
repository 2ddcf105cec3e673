//! What the service promises as a whole: of every event, every state and every
//! run.
use crate::broker::options_of;
use crate::broker::Delivery;
use crate::config::optional_text;
use crate::config::Config;
use crate::discovery::availability_json;
use crate::discovery::cpu_temp_json;
use crate::discovery::cpu_usage_json;
use crate::discovery::device_json;
use crate::discovery::monitor_json;
use crate::discovery::topic_json;
use crate::json::json_text;
use crate::json::Json;
use crate::monitor::law_texts_differ;
use crate::monitor::MonitorState;
use crate::mqtt::actions_view;
use crate::mqtt::at_least_one;
use crate::mqtt::connect_options;
use crate::mqtt::messages_view;
use crate::mqtt::Action;
use crate::mqtt::ActionView;
use crate::mqtt::Event;
use crate::mqtt::Message;
use crate::mqtt::MessageView;
use crate::mqtt::MqttManager;
use crate::mqtt::Session;
use crate::mqtt::TempSource;
use crate::topics::law_topics_hold_no_wildcard;
use crate::topics::law_topics_never_collide;
use crate::topics::free_of;
use crate::topics::slug_of;
use crate::topics::topic_text;
use crate::topics::Topic;
use vstd::prelude::*;
use vstd::utf8::encode_utf8;

verus! {

/// The messages that an action sends.
pub open spec fn messages_in(action: ActionView) -> Seq<MessageView> {
    match action {
        ActionView::Publish(messages) => messages,
        ActionView::TryPublish(message) => seq![message],
        ActionView::AnnounceTemp { message, .. } => seq![message],
        ActionView::Farewell { messages, .. } => messages,
        _ => Seq::empty(),
    }
}

/// Whether one of these actions sends this message.
pub open spec fn sends(actions: Seq<ActionView>, message: MessageView) -> bool {
    exists|i: int, j: int|
        0 <= i < actions.len() && 0 <= j < messages_in(actions[i]).len() && #[trigger] messages_in(
            actions[i],
        )[j] == message
}

/// Where the service stands after a run of events.
pub open spec fn after_all(session: Session, events: Seq<Event>) -> Session
    decreases events.len(),
{
    if events.len() == 0 {
        session
    } else {
        after_all(session, events.drop_last()).after(events.last())
    }
}

/// A member of a JSON object.
pub open spec fn member(json: Json, name: Seq<char>) -> Option<Json> {
    match json {
        Json::Object(members) => if members.contains_key(name) {
            Some(members[name])
        } else {
            None
        },
        _ => None,
    }
}

/// Nothing is sent while the broker is not connected: messages never pile up
/// behind a connection that is not there.
pub proof fn law_silent_while_disconnected(
    manager: MqttManager,
    session: Session,
    event: Event,
    message: MessageView,
)
    requires
        !session.connected,
        event !is Connected,
    ensures
        !sends(manager.actions_for(session, event), message),
{
}

/// A fresh connection is told again that the device is online, what its
/// monitor sensor is and what state the monitor is in.
pub proof fn law_connection_is_greeted(manager: MqttManager, session: Session)
    ensures
        sends(manager.actions_for(session, Event::Connected), manager.online_message(true)),
        sends(manager.actions_for(session, Event::Connected), manager.discovery_message()),
        sends(
            manager.actions_for(session, Event::Connected),
            manager.state_message(session.current),
        ),
        forall|j: int|
            0 <= j < manager.cpu_discovery_messages().len() ==> sends(
                manager.actions_for(session, Event::Connected),
                #[trigger] manager.cpu_discovery_messages()[j],
            ),
        session.after(Event::Connected).connected,
{
    let actions = manager.actions_for(session, Event::Connected);
    assert(messages_in(actions[0])[0] == manager.online_message(true));
    assert(messages_in(actions[1])[0] == manager.discovery_message());
    assert(messages_in(actions[3])[0] == manager.state_message(session.current));
    assert forall|j: int| 0 <= j < manager.cpu_discovery_messages().len() implies sends(
        actions,
        #[trigger] manager.cpu_discovery_messages()[j],
    ) by {
        assert(messages_in(actions[2])[j] == manager.cpu_discovery_messages()[j]);
    }
}

/// A state of the monitor that is not the one that counts is given three seconds
/// from when it was seen last. If it lasts it becomes the one that counts, and is
/// published where the broker is connected.
pub proof fn law_lasting_change_is_published(
    manager: MqttManager,
    session: Session,
    state: MonitorState,
)
    requires
        state != session.current,
    ensures
        ({
            let seen = session.after(Event::Monitor(state));
            &&& manager.actions_for(session, Event::Monitor(state)) == seq![
                ActionView::ArmDebounce { millis: 3000 },
            ]
            &&& seen.after(Event::DebounceElapsed) == (Session {
                current: state,
                pending: None,
                ..session
            })
            &&& session.connected ==> manager.actions_for(seen, Event::DebounceElapsed) == seq![
                ActionView::Publish(seq![manager.state_message(state)]),
            ]
        }),
{
}

/// A state of the monitor that does not last is as if it had never been: when
/// the monitor is back in the state that counts, nothing is pending, and the
/// debounce has nothing to do.
pub proof fn law_reverted_change_is_dropped(
    manager: MqttManager,
    session: Session,
    state: MonitorState,
)
    requires
        session.wf(),
    ensures
        ({
            let back = session.after(Event::Monitor(state)).after(Event::Monitor(session.current));
            &&& back == (Session { pending: None, ..session })
            &&& back.after(Event::DebounceElapsed) == back
            &&& manager.actions_for(back, Event::DebounceElapsed).len() == 0
        }),
{
}

/// A monitor state comes to count only when the debounce is over, and then it
/// is the one that was pending.
pub proof fn law_only_the_debounce_changes_the_state(session: Session, event: Event)
    requires
        session.after(event).current != session.current,
    ensures
        event is DebounceElapsed,
        session.pending == Some(session.after(event).current),
{
}

/// A change that came to count while the broker was away is published when it
/// is back.
pub proof fn law_missed_change_is_made_up_for(manager: MqttManager, session: Session)
    requires
        !session.connected,
        session.pending is Some,
    ensures
        sends(
            manager.actions_for(session.after(Event::DebounceElapsed), Event::Connected),
            manager.state_message(session.pending->0),
        ),
{
    law_connection_is_greeted(manager, session.after(Event::DebounceElapsed));
}

/// In every state that a run of events leads to, a pending state is not the one
/// that counts, and both the state that counts and the pending one were seen,
/// if the monitor is not simply taken to be on.
pub proof fn law_states_were_seen(events: Seq<Event>)
    ensures
        after_all(Session::initial(), events).wf(),
        ({
            let current = after_all(Session::initial(), events).current;
            current == MonitorState::On || events.contains(Event::Monitor(current))
        }),
        ({
            let pending = after_all(Session::initial(), events).pending;
            pending is Some ==> events.contains(Event::Monitor(pending->0))
        }),
    decreases events.len(),
{
    if events.len() > 0 {
        let before = events.drop_last();
        law_states_were_seen(before);
        let s = after_all(Session::initial(), before);
        let e = Event::Monitor(s.current);
        if before.contains(e) {
            let i = choose|i: int| 0 <= i < before.len() && before[i] == e;
            assert(events[i] == e);
        }
        if s.pending is Some {
            let p = Event::Monitor(s.pending->0);
            let i = choose|i: int| 0 <= i < before.len() && before[i] == p;
            assert(events[i] == p);
        }
        assert(events[events.len() - 1] == events.last());
    }
}

/// Whatever is sent is kept by the broker and delivered at least once, and it
/// goes to a topic of this device that holds no wildcard.
pub proof fn law_messages_are_retained(
    manager: MqttManager,
    session: Session,
    event: Event,
    message: MessageView,
)
    requires
        sends(manager.actions_for(session, event), message),
    ensures
        message.retain,
        message.delivery == Delivery::AtLeastOnce,
        exists|topic: Topic| message.topic == #[trigger] topic_text(topic, manager.slug_text()),
        free_of(message.topic, '+'),
        free_of(message.topic, '#'),
{
    let topic = lemma_topic_of(manager, session, event, message);
    law_topics_hold_no_wildcard(topic, manager.device_name@);
}

/// The topic of a message that is sent.
proof fn lemma_topic_of(
    manager: MqttManager,
    session: Session,
    event: Event,
    message: MessageView,
) -> (topic: Topic)
    requires
        sends(manager.actions_for(session, event), message),
    ensures
        message == manager.on_topic(topic, message.payload),
        topic == Topic::CpuUsage || topic == Topic::CpuUsageDiscovery ==> manager.metrics.cpu_usage,
        topic == Topic::CpuTemp || topic == Topic::CpuTempAvailability || topic
            == Topic::CpuTempDiscovery ==> manager.metrics.cpu_temp,
        event is Tick ==> topic != Topic::MonitorState && topic != Topic::Availability,
{
    let actions = manager.actions_for(session, event);
    let (i, j) = choose|i: int, j: int|
        0 <= i < actions.len() && 0 <= j < messages_in(actions[i]).len() && #[trigger] messages_in(
            actions[i],
        )[j] == message;
    match event {
        Event::Connected => {
            if i == 0 {
                Topic::Availability
            } else if i == 1 {
                Topic::MonitorDiscovery
            } else if i == 2 {
                if manager.metrics.cpu_usage && j == 0 {
                    Topic::CpuUsageDiscovery
                } else {
                    Topic::CpuTempDiscovery
                }
            } else {
                Topic::MonitorState
            }
        },
        Event::DebounceElapsed => Topic::MonitorState,
        Event::Tick { usage, temperature } => {
            let first = manager.usage_actions(session, optional_text(usage));
            let second = manager.temp_actions(session, optional_text(temperature));
            assert(actions == first + second);
            if i < first.len() {
                Topic::CpuUsage
            } else {
                assert(actions[i] == second[i - first.len()]);
                if temperature is Some && i == first.len() {
                    Topic::CpuTemp
                } else {
                    Topic::CpuTempAvailability
                }
            }
        },
        _ => {
            if j == 0 {
                Topic::MonitorState
            } else {
                Topic::Availability
            }
        },
    }
}

/// A sensor that is switched off is never spoken of.
pub proof fn law_disabled_sensors_are_silent(
    manager: MqttManager,
    session: Session,
    event: Event,
    message: MessageView,
    topic: Topic,
)
    requires
        sends(manager.actions_for(session, event), message),
        message.topic == topic_text(topic, manager.slug_text()),
    ensures
        topic == Topic::CpuUsage || topic == Topic::CpuUsageDiscovery ==> manager.metrics.cpu_usage,
        topic == Topic::CpuTemp || topic == Topic::CpuTempAvailability || topic
            == Topic::CpuTempDiscovery ==> manager.metrics.cpu_temp,
{
    let sent = lemma_topic_of(manager, session, event, message);
    law_topics_never_collide(topic, manager.device_name@, sent, manager.device_name@);
}

/// While there is no reading no temperature is published, and the sensor is
/// said to be unavailable unless that was said last: a stale value is never
/// left standing. While there is one it is published, and the sensor is said
/// to be available unless that was said last.
pub proof fn law_temperature_is_never_stale(
    manager: MqttManager,
    session: Session,
    usage: Option<String>,
    temperature: Option<String>,
    message: MessageView,
)
    requires
        session.connected,
        manager.metrics.cpu_temp,
    ensures
        ({
            let actions = manager.actions_for(session, Event::Tick { usage, temperature });
            &&& sends(actions, message) && message.topic == topic_text(
                Topic::CpuTemp,
                manager.slug_text(),
            ) ==> temperature is Some && message.payload == temperature->0@
            &&& temperature is Some ==> sends(
                actions,
                manager.on_topic(Topic::CpuTemp, temperature->0@),
            )
            &&& session.temp_available != Some(temperature is Some) ==> sends(
                actions,
                manager.temp_message(temperature is Some),
            )
        }),
{
    let event = Event::Tick { usage, temperature };
    let actions = manager.actions_for(session, event);
    let first = manager.usage_actions(session, optional_text(usage));
    let second = manager.temp_actions(session, optional_text(temperature));
    assert(actions == first + second);
    let n = first.len() as int;
    if temperature is Some {
        assert(actions[n] == second[0]);
        assert(messages_in(actions[n])[0] == manager.on_topic(Topic::CpuTemp, temperature->0@));
    }
    if session.temp_available != Some(temperature is Some) {
        let last = actions.len() - 1;
        assert(actions[last] == second.last());
        assert(messages_in(actions[last])[0] == manager.temp_message(temperature is Some));
    }
    if sends(actions, message) && message.topic == topic_text(Topic::CpuTemp, manager.slug_text()) {
        let (i, j) = choose|i: int, j: int|
            0 <= i < actions.len() && 0 <= j < messages_in(actions[i]).len()
                && #[trigger] messages_in(actions[i])[j] == message;
        let name = manager.device_name@;
        if i < n {
            assert(actions[i] == first[i]);
            assert(message.topic == topic_text(Topic::CpuUsage, manager.slug_text()));
            law_topics_never_collide(Topic::CpuTemp, name, Topic::CpuUsage, name);
        } else {
            assert(actions[i] == second[i - n]);
            if !(temperature is Some && i == n) {
                assert(message.topic == topic_text(
                    Topic::CpuTempAvailability,
                    manager.slug_text(),
                ));
                law_topics_never_collide(Topic::CpuTemp, name, Topic::CpuTempAvailability, name);
            }
        }
    }
}

/// Whether there is a temperature is published only where that is news.
pub proof fn law_availability_is_sent_on_change(
    manager: MqttManager,
    session: Session,
    usage: Option<String>,
    temperature: Option<String>,
    message: MessageView,
)
    requires
        sends(
            manager.actions_for(
                session.after(Event::TempAnnounced(temperature is Some)),
                Event::Tick { usage, temperature },
            ),
            message,
        ),
    ensures
        message.topic != topic_text(Topic::CpuTempAvailability, manager.slug_text()),
{
    let told = session.after(Event::TempAnnounced(temperature is Some));
    let actions = manager.actions_for(told, Event::Tick { usage, temperature });
    let first = manager.usage_actions(told, optional_text(usage));
    let second = manager.temp_actions(told, optional_text(temperature));
    assert(actions == first + second);
    let (i, j) = choose|i: int, j: int|
        0 <= i < actions.len() && 0 <= j < messages_in(actions[i]).len() && #[trigger] messages_in(
            actions[i],
        )[j] == message;
    let name = manager.device_name@;
    if message.topic == topic_text(Topic::CpuTempAvailability, manager.slug_text()) {
        if i < first.len() {
            assert(actions[i] == first[i]);
            law_topics_never_collide(Topic::CpuTempAvailability, name, Topic::CpuUsage, name);
        } else {
            assert(actions[i] == second[i - first.len()]);
            law_topics_never_collide(Topic::CpuTempAvailability, name, Topic::CpuTemp, name);
        }
    }
}

/// A fresh connection is told anew whether there is a temperature, whatever was
/// said before.
pub proof fn law_connection_forgets_the_availability(
    manager: MqttManager,
    session: Session,
    usage: Option<String>,
    temperature: Option<String>,
)
    requires
        manager.metrics.cpu_temp,
    ensures
        sends(
            manager.actions_for(
                session.after(Event::Connected),
                Event::Tick { usage, temperature },
            ),
            manager.temp_message(temperature is Some),
        ),
{
    law_temperature_is_never_stale(
        manager,
        session.after(Event::Connected),
        usage,
        temperature,
        manager.temp_message(temperature is Some),
    );
}

/// The service ends when it is told to, whether or not the broker is
/// connected, and for no other reason.
pub proof fn law_shutdown_always_ends(manager: MqttManager, session: Session, event: Event)
    ensures
        manager.actions_for(session, event).contains(ActionView::Stop) <==> event is Shutdown,
        event is Shutdown ==> manager.actions_for(session, event).last() == ActionView::Stop,
{
    let actions = manager.actions_for(session, event);
    if event is Shutdown {
        assert(actions[actions.len() - 1] == ActionView::Stop);
    }
    if let Event::Tick { usage, temperature } = event {
        let first = manager.usage_actions(session, optional_text(usage));
        let second = manager.temp_actions(session, optional_text(temperature));
        assert(actions == first + second);
        assert forall|i: int| 0 <= i < actions.len() implies actions[i] != ActionView::Stop by {
            if i >= first.len() {
                assert(actions[i] == second[i - first.len()]);
            }
        }
    }
}

/// A service that ends while the broker is connected leaves the truth behind:
/// the monitor is off and the device is offline.
pub proof fn law_shutdown_leaves_the_truth(manager: MqttManager, session: Session)
    requires
        session.connected,
    ensures
        sends(
            manager.actions_for(session, Event::Shutdown),
            manager.state_message(MonitorState::Off),
        ),
        sends(manager.actions_for(session, Event::Shutdown), manager.online_message(false)),
{
    let actions = manager.actions_for(session, Event::Shutdown);
    assert(messages_in(actions[0])[0] == manager.state_message(MonitorState::Off));
    assert(messages_in(actions[0])[1] == manager.online_message(false));
}

/// The broker says for a service that vanished what the service says itself
/// when it ends: the last will is the message that the device is offline.
pub proof fn law_last_will_says_offline(config: Config, manager: MqttManager)
    requires
        manager.device_name@ == config.device.name@,
    ensures
        connect_options(config).last_will is Some,
        ({
            let will = connect_options(config).last_will->0;
            let offline = manager.online_message(false);
            &&& will.topic == offline.topic
            &&& will.payload == encode_utf8(offline.payload)
            &&& will.delivery == offline.delivery
            &&& will.retain == offline.retain
        }),
{
}

/// The monitor sensor names no availability topic.
pub proof fn law_monitor_is_never_unavailable(slug: Seq<char>, name: Seq<char>)
    ensures
        member(monitor_json(slug, name), "availability_topic"@) is None,
        member(monitor_json(slug, name), "availability"@) is None,
{
    reveal_strlit("availability_topic");
    reveal_strlit("availability");
    reveal_strlit("name");
    reveal_strlit("icon");
    reveal_strlit("state_topic");
    reveal_strlit("payload_on");
    reveal_strlit("payload_off");
    reveal_strlit("unique_id");
    reveal_strlit("device");
    assert("availability_topic"@[0] == 'a' && "availability"@[0] == 'a');
    assert("name"@[0] != 'a' && "icon"@[0] != 'a' && "state_topic"@[0] != 'a');
    assert("payload_on"@[0] != 'a' && "payload_off"@[0] != 'a');
    assert("unique_id"@[0] != 'a' && "device"@[0] != 'a');
}

/// The CPU sensors are unavailable when the device is: both name the topic that
/// the last will goes to. The temperature is unavailable, too, when there is
/// no reading.
pub proof fn law_cpu_sensors_follow_the_device(slug: Seq<char>, name: Seq<char>)
    ensures
        member(cpu_usage_json(slug, name), "availability_topic"@) == Some(
            topic_json(Topic::Availability, slug),
        ),
        member(cpu_temp_json(slug, name), "availability"@) == Some(
            Json::List(
                seq![
                    availability_json(Topic::Availability, slug),
                    availability_json(Topic::CpuTempAvailability, slug),
                ],
            ),
        ),
        member(cpu_temp_json(slug, name), "availability_mode"@) == Some(Json::Text("all"@)),
{
    reveal_strlit("availability_topic");
    reveal_strlit("availability");
    reveal_strlit("availability_mode");
    reveal_strlit("payload_available");
    reveal_strlit("payload_not_available");
    reveal_strlit("unique_id");
    reveal_strlit("device");
    reveal_strlit("all");
    assert("availability_topic"@[0] == 'a' && "availability"@[0] == 'a');
    assert("availability_mode"@[0] == 'a');
    assert("availability"@.len() != "availability_mode"@.len());
    assert("payload_available"@[0] == 'p' && "payload_not_available"@[0] == 'p');
    assert("unique_id"@[0] == 'u' && "device"@[0] == 'd');
}

/// Home Assistant listens where the states go, and knows the monitor's states
/// by the texts that are published.
pub proof fn law_discovery_names_the_state_topics(manager: MqttManager)
    ensures
        ({
            let slug = manager.slug_text();
            let name = manager.device_name@;
            &&& member(monitor_json(slug, name), "state_topic"@) == Some(
                Json::Text(manager.state_message(MonitorState::On).topic),
            )
            &&& member(monitor_json(slug, name), "payload_on"@) == Some(
                Json::Text(manager.state_message(MonitorState::On).payload),
            )
            &&& member(monitor_json(slug, name), "payload_off"@) == Some(
                Json::Text(manager.state_message(MonitorState::Off).payload),
            )
            &&& member(cpu_usage_json(slug, name), "state_topic"@) == Some(
                topic_json(Topic::CpuUsage, slug),
            )
            &&& member(cpu_temp_json(slug, name), "state_topic"@) == Some(
                topic_json(Topic::CpuTemp, slug),
            )
        }),
{
    reveal_strlit("state_topic");
    reveal_strlit("payload_on");
    reveal_strlit("payload_off");
    reveal_strlit("unit_of_measurement");
    reveal_strlit("state_class");
    reveal_strlit("suggested_display_precision");
    reveal_strlit("availability_topic");
    reveal_strlit("availability_mode");
    reveal_strlit("availability");
    reveal_strlit("payload_available");
    reveal_strlit("payload_not_available");
    reveal_strlit("unique_id");
    reveal_strlit("device");
    assert("state_topic"@[0] == 's' && "state_topic"@[1] == 't' && "state_topic"@[6] == 't');
    assert("state_class"@[6] == 'c' && "suggested_display_precision"@[1] == 'u');
    assert("payload_on"@[0] == 'p' && "payload_off"@[0] == 'p');
    assert("payload_on"@.len() != "payload_off"@.len());
    assert("unit_of_measurement"@[0] == 'u' && "unique_id"@[0] == 'u');
    assert("availability_topic"@[0] == 'a' && "availability_mode"@[0] == 'a');
    assert("availability"@[0] == 'a' && "device"@[0] == 'd');
    assert("payload_available"@[0] == 'p' && "payload_not_available"@[0] == 'p');
}

/// All sensors belong to one device.
pub proof fn law_sensors_share_the_device(slug: Seq<char>, name: Seq<char>)
    ensures
        member(monitor_json(slug, name), "device"@) == Some(device_json(slug, name)),
        member(cpu_usage_json(slug, name), "device"@) == Some(device_json(slug, name)),
        member(cpu_temp_json(slug, name), "device"@) == Some(device_json(slug, name)),
{
}

/// The messages that actions send, in order.
pub open spec fn all_messages(actions: Seq<ActionView>) -> Seq<MessageView>
    decreases actions.len(),
{
    if actions.len() == 0 {
        Seq::empty()
    } else {
        all_messages(actions.drop_last()) + messages_in(actions.last())
    }
}

/// What the last of these messages on a topic says, if there is one.
pub open spec fn last_on(messages: Seq<MessageView>, topic: Seq<char>) -> Option<Seq<char>>
    decreases messages.len(),
{
    if messages.len() == 0 {
        None
    } else if messages.last().topic == topic {
        Some(messages.last().payload)
    } else {
        last_on(messages.drop_last(), topic)
    }
}

/// What a service that started afresh and saw these events said last on a
/// topic. The broker keeps it, where it got every message.
pub open spec fn told(manager: MqttManager, events: Seq<Event>, topic: Seq<char>) -> Option<
    Seq<char>,
>
    decreases events.len(),
{
    if events.len() == 0 {
        None
    } else {
        let session = after_all(Session::initial(), events.drop_last());
        let said = last_on(all_messages(manager.actions_for(session, events.last())), topic);
        if said is Some {
            said
        } else {
            told(manager, events.drop_last(), topic)
        }
    }
}

/// What is said last on a topic is sent.
proof fn lemma_last_is_sent(actions: Seq<ActionView>, topic: Seq<char>) -> (message: MessageView)
    requires
        last_on(all_messages(actions), topic) is Some,
    ensures
        sends(actions, message),
        message.topic == topic,
    decreases actions.len(),
{
    let before = actions.drop_last();
    let here = messages_in(actions.last());
    lemma_last_of_two(all_messages(before), here, topic);
    if last_on(here, topic) is Some {
        let j = lemma_last_is_there(here, topic);
        assert(messages_in(actions[actions.len() - 1])[j] == here[j]);
        here[j]
    } else {
        let message = lemma_last_is_sent(before, topic);
        let (i, j) = choose|i: int, j: int|
            0 <= i < before.len() && 0 <= j < messages_in(before[i]).len()
                && #[trigger] messages_in(before[i])[j] == message;
        assert(messages_in(actions[i])[j] == message);
        message
    }
}

proof fn lemma_last_is_there(messages: Seq<MessageView>, topic: Seq<char>) -> (j: int)
    requires
        last_on(messages, topic) is Some,
    ensures
        0 <= j < messages.len(),
        messages[j].topic == topic,
    decreases messages.len(),
{
    if messages.last().topic == topic {
        messages.len() - 1
    } else {
        lemma_last_is_there(messages.drop_last(), topic)
    }
}

proof fn lemma_last_of_two(a: Seq<MessageView>, b: Seq<MessageView>, topic: Seq<char>)
    ensures
        last_on(a + b, topic) == (if last_on(b, topic) is Some {
            last_on(b, topic)
        } else {
            last_on(a, topic)
        }),
    decreases b.len(),
{
    if b.len() == 0 {
        assert(a + b == a);
    } else {
        assert((a + b).last() == b.last());
        assert((a + b).drop_last() == a + b.drop_last());
        lemma_last_of_two(a, b.drop_last(), topic);
    }
}

/// What a fresh connection is told last of the monitor and of the device.
proof fn lemma_greeting_tells(manager: MqttManager, state: MonitorState)
    ensures
        ({
            let said = all_messages(manager.greeting(state));
            let slug = manager.slug_text();
            &&& last_on(said, topic_text(Topic::MonitorState, slug)) == Some(state.text())
            &&& last_on(said, topic_text(Topic::Availability, slug)) == Some("online"@)
        }),
{
    let name = manager.device_name@;
    let availability = topic_text(Topic::Availability, manager.slug_text());
    let actions = manager.greeting(state);
    let online = seq![manager.online_message(true)];
    let monitor = seq![manager.discovery_message()];
    let cpu = manager.cpu_discovery_messages();
    let last = seq![manager.state_message(state)];
    reveal_with_fuel(all_messages, 5);
    assert(actions.drop_last().drop_last().drop_last().drop_last().len() == 0);
    assert(all_messages(actions) == Seq::<MessageView>::empty() + online + monitor + cpu + last);
    assert(online == Seq::<MessageView>::empty() + online);
    lemma_last_of_two(online + monitor + cpu, last, availability);
    lemma_last_of_two(online + monitor, cpu, availability);
    lemma_last_of_two(online, monitor, availability);
    reveal_with_fuel(last_on, 3);
    if topic_text(Topic::MonitorState, manager.slug_text()) == availability {
        law_topics_never_collide(Topic::MonitorState, name, Topic::Availability, name);
    }
    if topic_text(Topic::MonitorDiscovery, manager.slug_text()) == availability {
        law_topics_never_collide(Topic::MonitorDiscovery, name, Topic::Availability, name);
    }
    if last_on(cpu, availability) is Some {
        let j = lemma_last_is_there(cpu, availability);
        if topic_text(Topic::CpuUsageDiscovery, manager.slug_text()) == availability {
            law_topics_never_collide(Topic::CpuUsageDiscovery, name, Topic::Availability, name);
        }
        if topic_text(Topic::CpuTempDiscovery, manager.slug_text()) == availability {
            law_topics_never_collide(Topic::CpuTempDiscovery, name, Topic::Availability, name);
        }
    }
}

/// While the broker is connected and the service was not told to end, the
/// broker was told last that the device is online, and the state of the monitor
/// that counts, whatever happened before.
pub proof fn law_broker_is_up_to_date(manager: MqttManager, events: Seq<Event>)
    requires
        forall|i: int| 0 <= i < events.len() ==> !(#[trigger] events[i] is Shutdown),
        after_all(Session::initial(), events).connected,
    ensures
        told(manager, events, topic_text(Topic::Availability, manager.slug_text())) == Some(
            "online"@,
        ),
        told(manager, events, topic_text(Topic::MonitorState, manager.slug_text())) == Some(
            after_all(Session::initial(), events).current.text(),
        ),
    decreases events.len(),
{
    let before = events.drop_last();
    let event = events.last();
    let session = after_all(Session::initial(), before);
    let actions = manager.actions_for(session, event);
    let name = manager.device_name@;
    let slug = manager.slug_text();
    let state = topic_text(Topic::MonitorState, slug);
    let availability = topic_text(Topic::Availability, slug);
    assert(event == events[events.len() - 1]);
    if event is Connected {
        lemma_greeting_tells(manager, session.current);
    } else {
        assert forall|i: int| 0 <= i < before.len() implies !(#[trigger] before[i] is Shutdown) by {
            assert(before[i] == events[i]);
        }
        law_broker_is_up_to_date(manager, before);
        if event is DebounceElapsed && session.pending is Some {
            let sent = seq![manager.state_message(session.pending->0)];
            assert(actions == seq![ActionView::Publish(sent)]);
            assert(actions.drop_last() == Seq::<ActionView>::empty());
            reveal_with_fuel(all_messages, 2);
            assert(all_messages(actions) == sent);
            reveal_with_fuel(last_on, 2);
            if state == availability {
                law_topics_never_collide(Topic::MonitorState, name, Topic::Availability, name);
            }
        } else if event is Tick {
            if last_on(all_messages(actions), state) is Some {
                let message = lemma_last_is_sent(actions, state);
                let topic = lemma_topic_of(manager, session, event, message);
                law_topics_never_collide(topic, name, Topic::MonitorState, name);
            }
            if last_on(all_messages(actions), availability) is Some {
                let message = lemma_last_is_sent(actions, availability);
                let topic = lemma_topic_of(manager, session, event, message);
                law_topics_never_collide(topic, name, Topic::Availability, name);
            }
        } else {
            reveal_with_fuel(all_messages, 2);
            assert(all_messages(actions) == Seq::<MessageView>::empty());
        }
    }
}

/// Once a service that was connected has ended, the broker was told last that
/// the device is offline and that its monitor is off, whatever happened before.
pub proof fn law_broker_keeps_the_farewell(manager: MqttManager, events: Seq<Event>)
    requires
        events.len() > 0,
        events.last() is Shutdown,
        after_all(Session::initial(), events).connected,
    ensures
        told(manager, events, topic_text(Topic::Availability, manager.slug_text())) == Some(
            "offline"@,
        ),
        told(manager, events, topic_text(Topic::MonitorState, manager.slug_text())) == Some("OFF"@),
{
    let session = after_all(Session::initial(), events.drop_last());
    let actions = manager.actions_for(session, events.last());
    let name = manager.device_name@;
    let sent = seq![manager.state_message(MonitorState::Off), manager.online_message(false)];
    assert(actions == seq![
        ActionView::Farewell { messages: sent, millis: crate::mqtt::FAREWELL_MILLIS },
        ActionView::Stop,
    ]);
    assert(actions.drop_last().drop_last() == Seq::<ActionView>::empty());
    reveal_with_fuel(all_messages, 3);
    assert(all_messages(actions) == sent);
    reveal_with_fuel(last_on, 3);
    assert(sent.drop_last() == seq![manager.state_message(MonitorState::Off)]);
    if topic_text(Topic::MonitorState, manager.slug_text()) == topic_text(
        Topic::Availability,
        manager.slug_text(),
    ) {
        law_topics_never_collide(Topic::MonitorState, name, Topic::Availability, name);
    }
}

/// Where a monitor state that is pending was seen last.
pub open spec fn seen_last(events: Seq<Event>, state: MonitorState, i: int) -> bool {
    &&& 0 <= i < events.len()
    &&& events[i] == Event::Monitor(state)
    &&& forall|j: int|
        i < j < events.len() ==> !(#[trigger] events[j] is Monitor) && !(events[j] is DebounceElapsed)
}

/// In every state that a run of events leads to, a pending state is the last one
/// that was seen. The three seconds were armed when it was seen, and they are not
/// over. It is not the state that counts and, while the broker is connected and
/// the service was not told to end, not what was said last.
#[verifier::spinoff_prover]
#[verifier::rlimit(50)]
pub proof fn law_pending_state_was_seen_last(manager: MqttManager, events: Seq<Event>)
    requires
        after_all(Session::initial(), events).pending is Some,
    ensures
        ({
            let session = after_all(Session::initial(), events);
            let state = session.pending->0;
            &&& exists|i: int|
                #![trigger events[i]]
                seen_last(events, state, i) && manager.actions_for(
                    after_all(Session::initial(), events.take(i)),
                    events[i],
                ) == seq![ActionView::ArmDebounce { millis: 3000 }]
            &&& state != session.current
            &&& session.connected && (forall|i: int|
                0 <= i < events.len() ==> !(#[trigger] events[i] is Shutdown)) ==> told(
                manager,
                events,
                topic_text(Topic::MonitorState, manager.slug_text()),
            ) != Some(state.text())
        }),
    decreases events.len(),
{
    let session = after_all(Session::initial(), events);
    let state = session.pending->0;
    let before = events.drop_last();
    let event = events.last();
    let last = events.len() - 1;
    law_states_were_seen(events);
    if event is Monitor {
        assert(events.take(last) == before);
        assert(seen_last(events, state, last));
    } else {
        law_pending_state_was_seen_last(manager, before);
        let i = choose|i: int|
            #![trigger before[i]]
            seen_last(before, state, i) && manager.actions_for(
                after_all(Session::initial(), before.take(i)),
                before[i],
            ) == seq![ActionView::ArmDebounce { millis: 3000 }];
        assert(events.take(i) == before.take(i));
        assert(events[i] == before[i]);
        assert forall|j: int| i < j < events.len() implies !(#[trigger] events[j] is Monitor) && !(
        events[j] is DebounceElapsed) by {
            if j < last {
                assert(events[j] == before[j]);
            }
        }
        assert(seen_last(events, state, i));
    }
    if session.connected && (forall|i: int|
        0 <= i < events.len() ==> !(#[trigger] events[i] is Shutdown)) {
        law_broker_is_up_to_date(manager, events);
        law_texts_differ(state, session.current);
    }
}

/// Where it was announced last whether there is a CPU temperature.
pub open spec fn announced_last(events: Seq<Event>, available: bool, i: int) -> bool {
    &&& 0 <= i < events.len()
    &&& events[i] == Event::TempAnnounced(available)
    &&& forall|j: int|
        i < j < events.len() ==> !(#[trigger] events[j] is TempAnnounced) && !(
        events[j] is Connected)
}

/// What is known of whether there is a CPU temperature, in every state that a
/// run of events leads to, is what was announced last, and on this connection:
/// no announcement and no fresh connection came later. Where nothing is known,
/// nothing was announced since the last fresh connection.
pub proof fn law_known_availability_was_announced_last(events: Seq<Event>)
    ensures
        match after_all(Session::initial(), events).temp_available {
            Some(available) => exists|i: int|
                #![trigger events[i]]
                announced_last(events, available, i),
            None => forall|i: int|
                0 <= i < events.len() && (#[trigger] events[i] is TempAnnounced) ==> exists|j: int|
                    i < j < events.len() && #[trigger] events[j] is Connected,
        },
    decreases events.len(),
{
    if events.len() > 0 {
        let before = events.drop_last();
        let event = events.last();
        let last = events.len() - 1;
        assert(events[last] == event);
        law_known_availability_was_announced_last(before);
        match after_all(Session::initial(), events).temp_available {
            Some(available) => {
                if event is TempAnnounced {
                    assert(announced_last(events, available, last));
                } else {
                    let i = choose|i: int|
                        #![trigger before[i]]
                        announced_last(before, available, i);
                    assert(events[i] == before[i]);
                    assert forall|j: int| i < j < events.len() implies !(
                    #[trigger] events[j] is TempAnnounced) && !(events[j] is Connected) by {
                        if j < last {
                            assert(events[j] == before[j]);
                        }
                    }
                    assert(announced_last(events, available, i));
                }
            },
            None => {
                assert forall|i: int|
                    0 <= i < events.len() && (#[trigger] events[i] is TempAnnounced) implies exists|
                    j: int,
                |
                    i < j < events.len() && #[trigger] events[j] is Connected by {
                    if !(event is Connected) {
                        assert(before[i] == events[i]);
                        let j = choose|j: int|
                            i < j < before.len() && #[trigger] before[j] is Connected;
                        assert(events[j] is Connected);
                    }
                }
            },
        }
    }
}

/// Each part of where the service stands is changed by these events and by no
/// other: the connection by what happens to it, the pending state by what is
/// seen of the monitor and by the end of the debounce, the state that counts by
/// the end of the debounce, and what is known of the temperature's availability
/// by an announcement and a fresh connection.
pub proof fn law_events_change_their_own_part_only(session: Session, event: Event)
    ensures
        ({
            let after = session.after(event);
            &&& event is Connected ==> after.connected
            &&& event is ConnectionLost ==> !after.connected
            &&& event !is Connected && event !is ConnectionLost ==> after.connected
                == session.connected
            &&& event matches Event::Monitor(state) ==> after.pending == (if state
                == session.current {
                None
            } else {
                Some(state)
            })
            &&& event is DebounceElapsed ==> after.pending is None
            &&& event !is Monitor && event !is DebounceElapsed ==> after.pending == session.pending
            &&& event is DebounceElapsed && session.pending is Some ==> after.current
                == session.pending->0
            &&& event !is DebounceElapsed || session.pending is None ==> after.current
                == session.current
            &&& event is Connected ==> after.temp_available is None
            &&& event matches Event::TempAnnounced(available) ==> after.temp_available == Some(
                available,
            )
            &&& event !is Connected && event !is TempAnnounced ==> after.temp_available
                == session.temp_available
        }),
{
}

/// The service starts with the monitor taken to be on, nothing pending, nothing
/// connected and nothing announced.
pub proof fn law_service_starts_afresh()
    ensures
        Session::initial().current == MonitorState::On,
        Session::initial().pending is None,
        !Session::initial().connected,
        Session::initial().temp_available is None,
{
}

/// Whether events tell nothing of the monitor and let the debounce go on.
pub open spec fn beside_the_monitor(events: Seq<Event>) -> bool {
    forall|i: int|
        0 <= i < events.len() ==> !(#[trigger] events[i] is Monitor) && !(
        events[i] is DebounceElapsed)
}

proof fn lemma_pending_lasts(session: Session, events: Seq<Event>)
    requires
        beside_the_monitor(events),
    ensures
        after_all(session, events).pending == session.pending,
        after_all(session, events).current == session.current,
    decreases events.len(),
{
    if events.len() > 0 {
        let before = events.drop_last();
        assert forall|i: int| 0 <= i < before.len() implies !(#[trigger] before[i] is Monitor) && !(
        before[i] is DebounceElapsed) by {
            assert(before[i] == events[i]);
        }
        lemma_pending_lasts(session, before);
        assert(events[events.len() - 1] == events.last());
    }
}

/// A state of the monitor that was seen and is not the one that counts is
/// pending, and comes to count when the debounce is over, whatever else happens
/// in between: packets, ticks, lost and fresh connections. It is published then
/// if the broker is connected by then.
pub proof fn law_seen_state_comes_to_count(
    manager: MqttManager,
    session: Session,
    state: MonitorState,
    between: Seq<Event>,
)
    requires
        state != session.current,
        beside_the_monitor(between),
    ensures
        ({
            let waiting = after_all(session.after(Event::Monitor(state)), between);
            let over = waiting.after(Event::DebounceElapsed);
            let actions = manager.actions_for(waiting, Event::DebounceElapsed);
            &&& waiting.pending == Some(state)
            &&& waiting.current == session.current
            &&& over.current == state
            &&& over.pending is None
            &&& waiting.connected ==> actions == seq![
                ActionView::Publish(seq![manager.state_message(state)]),
            ]
            &&& !waiting.connected ==> actions.len() == 0
        }),
{
    lemma_pending_lasts(session.after(Event::Monitor(state)), between);
}

/// Once the monitor was seen in the state that counts nothing is pending, and
/// the end of a debounce changes and says nothing, whatever else happens in
/// between.
pub proof fn law_seen_state_that_counts_cancels(
    manager: MqttManager,
    session: Session,
    between: Seq<Event>,
)
    requires
        beside_the_monitor(between),
    ensures
        ({
            let waiting = after_all(session.after(Event::Monitor(session.current)), between);
            &&& waiting.pending is None
            &&& waiting.current == session.current
            &&& waiting.after(Event::DebounceElapsed) == waiting
            &&& manager.actions_for(waiting, Event::DebounceElapsed).len() == 0
            &&& manager.actions_for(session, Event::Monitor(session.current)).len() == 0
        }),
{
    lemma_pending_lasts(session.after(Event::Monitor(session.current)), between);
}

/// The service takes itself to be connected if and only if the broker accepted
/// a connection that was not lost since.
pub proof fn law_connection_is_the_last_one(events: Seq<Event>)
    ensures
        after_all(Session::initial(), events).connected <==> exists|i: int|
            0 <= i < events.len() && #[trigger] events[i] is Connected && unbroken_since(events, i),
    decreases events.len(),
{
    if events.len() > 0 {
        let before = events.drop_last();
        let event = events.last();
        let last = events.len() - 1;
        assert(events[last] == event);
        law_connection_is_the_last_one(before);
        if after_all(Session::initial(), events).connected {
            if event is Connected {
                assert(unbroken_since(events, last));
            } else {
                let i = choose|i: int|
                    0 <= i < before.len() && #[trigger] before[i] is Connected && unbroken_since(
                        before,
                        i,
                    );
                assert forall|j: int| i < j < events.len() implies !(
                #[trigger] events[j] is ConnectionLost) by {
                    if j < last {
                        assert(events[j] == before[j]);
                    }
                }
                assert(events[i] is Connected && unbroken_since(events, i));
            }
        } else {
            assert forall|i: int|
                0 <= i < events.len() && #[trigger] events[i] is Connected implies !unbroken_since(
                events,
                i,
            ) by {
                if unbroken_since(events, i) {
                    assert(i < last);
                    assert(before[i] == events[i]);
                    assert forall|j: int| i < j < before.len() implies !(
                    #[trigger] before[j] is ConnectionLost) by {
                        assert(before[j] == events[j]);
                    }
                    assert(unbroken_since(before, i));
                }
            }
        }
    }
}

/// Whether no connection was lost behind the event at `i`.
pub open spec fn unbroken_since(events: Seq<Event>, i: int) -> bool {
    forall|j: int| i < j < events.len() ==> !(#[trigger] events[j] is ConnectionLost)
}

/// A message that the broker keeps and delivers at least once.
pub open spec fn kept(topic: Seq<char>, payload: Seq<char>) -> MessageView {
    MessageView { topic, payload, delivery: Delivery::AtLeastOnce, retain: true }
}

/// The messages of a device say these things on these topics, whatever the
/// device: `online` or `offline`, `ON` or `OFF`, and the discovery documents.
pub proof fn law_messages_say_these_things(manager: MqttManager, payload: Seq<char>, topic: Topic)
    ensures
        ({
            let slug = slug_of(manager.device_name@);
            let name = manager.device_name@;
            &&& manager.slug_text() == slug
            &&& manager.on_topic(topic, payload) == kept(topic_text(topic, slug), payload)
            &&& manager.online_message(true) == kept(
                "watchdesk/"@ + slug + "/availability"@,
                "online"@,
            )
            &&& manager.online_message(false) == kept(
                "watchdesk/"@ + slug + "/availability"@,
                "offline"@,
            )
            &&& manager.state_message(MonitorState::On) == kept(
                "watchdesk/"@ + slug + "/monitor/state"@,
                "ON"@,
            )
            &&& manager.state_message(MonitorState::Off) == kept(
                "watchdesk/"@ + slug + "/monitor/state"@,
                "OFF"@,
            )
            &&& manager.temp_message(true) == kept(
                "watchdesk/"@ + slug + "/cpu/temperature/availability"@,
                "online"@,
            )
            &&& manager.temp_message(false) == kept(
                "watchdesk/"@ + slug + "/cpu/temperature/availability"@,
                "offline"@,
            )
            &&& manager.discovery_message() == kept(
                "homeassistant/binary_sensor/watchdesk_"@ + slug + "_monitor/config"@,
                json_text(monitor_json(slug, name)),
            )
        }),
{
}

/// The sensors that are wanted are announced, and no other: the CPU usage if and
/// only if it is on, the temperature if and only if it is on, each whether or
/// not the other is.
pub proof fn law_wanted_sensors_are_announced(manager: MqttManager)
    ensures
        ({
            let slug = slug_of(manager.device_name@);
            let name = manager.device_name@;
            let messages = manager.cpu_discovery_messages();
            let usage = kept(
                "homeassistant/sensor/watchdesk_"@ + slug + "_cpu_usage/config"@,
                json_text(cpu_usage_json(slug, name)),
            );
            let temp = kept(
                "homeassistant/sensor/watchdesk_"@ + slug + "_cpu_temp/config"@,
                json_text(cpu_temp_json(slug, name)),
            );
            &&& manager.metrics.cpu_usage && manager.metrics.cpu_temp ==> messages == seq![
                usage,
                temp,
            ]
            &&& manager.metrics.cpu_usage && !manager.metrics.cpu_temp ==> messages == seq![usage]
            &&& !manager.metrics.cpu_usage && manager.metrics.cpu_temp ==> messages == seq![temp]
            &&& !manager.metrics.cpu_usage && !manager.metrics.cpu_temp ==> messages.len() == 0
        }),
{
}

/// Every fresh connection is greeted with the same four things in the same
/// order, of which only the last depends on where the service stands, and there
/// only on the state that counts.
pub proof fn law_greeting_is_the_same_for_all(manager: MqttManager, session: Session)
    ensures
        manager.actions_for(session, Event::Connected) == seq![
            ActionView::Publish(seq![manager.online_message(true)]),
            ActionView::Publish(seq![manager.discovery_message()]),
            ActionView::Publish(manager.cpu_discovery_messages()),
            ActionView::Publish(seq![manager.state_message(session.current)]),
        ],
{
}

/// Where the broker is connected, the CPU usage is on and there is one, each
/// tick sends it on its topic, exactly as it is, whatever else is on and
/// whatever else is known; in every other case nothing goes to that topic.
pub proof fn law_usage_is_published_regardless(
    manager: MqttManager,
    session: Session,
    usage: Option<String>,
    temperature: Option<String>,
    message: MessageView,
)
    ensures
        ({
            let topic = "watchdesk/"@ + slug_of(manager.device_name@) + "/cpu/usage"@;
            let actions = manager.actions_for(session, Event::Tick { usage, temperature });
            let wanted = session.connected && manager.metrics.cpu_usage && usage is Some;
            &&& wanted ==> actions.len() > 0 && actions[0] == ActionView::TryPublish(
                kept(topic, usage->0@),
            )
            &&& sends(actions, message) && message.topic == topic ==> wanted && message == kept(
                topic,
                usage->0@,
            )
        }),
{
    let actions = manager.actions_for(session, Event::Tick { usage, temperature });
    let name = manager.device_name@;
    let first = manager.usage_actions(session, optional_text(usage));
    let second = manager.temp_actions(session, optional_text(temperature));
    assert(actions == first + second);
    if sends(actions, message) && message.topic == topic_text(
        Topic::CpuUsage,
        manager.slug_text(),
    ) {
        let (i, j) = choose|i: int, j: int|
            0 <= i < actions.len() && 0 <= j < messages_in(actions[i]).len()
                && #[trigger] messages_in(actions[i])[j] == message;
        if i >= first.len() {
            assert(actions[i] == second[i - first.len()]);
            if temperature is Some && i == first.len() {
                law_topics_never_collide(Topic::CpuTemp, name, Topic::CpuUsage, name);
            } else {
                law_topics_never_collide(Topic::CpuTempAvailability, name, Topic::CpuUsage, name);
            }
        }
    }
}

/// What a tick makes of the temperature does not depend on the usage, and what
/// it makes of the usage does not depend on the temperature: it is the one,
/// followed by the other.
pub proof fn law_metrics_do_not_depend_on_each_other(
    manager: MqttManager,
    session: Session,
    usage: Option<String>,
    temperature: Option<String>,
)
    requires
        session.connected,
    ensures
        ({
            let slug = slug_of(manager.device_name@);
            let actions = manager.actions_for(session, Event::Tick { usage, temperature });
            let value = ActionView::TryPublish(
                kept("watchdesk/"@ + slug + "/cpu/temperature"@, temperature->0@),
            );
            let news = ActionView::AnnounceTemp {
                message: kept(
                    "watchdesk/"@ + slug + "/cpu/temperature/availability"@,
                    if temperature is Some {
                        "online"@
                    } else {
                        "offline"@
                    },
                ),
                available: temperature is Some,
            };
            let n: int = if manager.metrics.cpu_usage && usage is Some {
                1
            } else {
                0
            };
            let rest = actions.skip(n);
            let known = session.temp_available == Some(temperature is Some);
            &&& n <= actions.len()
            &&& !manager.metrics.cpu_temp ==> rest.len() == 0
            &&& manager.metrics.cpu_temp && temperature is Some && known ==> rest == seq![value]
            &&& manager.metrics.cpu_temp && temperature is Some && !known ==> rest == seq![
                value,
                news,
            ]
            &&& manager.metrics.cpu_temp && temperature is None && known ==> rest.len() == 0
            &&& manager.metrics.cpu_temp && temperature is None && !known ==> rest == seq![news]
        }),
{
}

/// Other packets and announcements lead to nothing, a lost connection to a pause
/// of a second, and a monitor state to a debounce of three seconds if and only
/// if it is not the one that counts; ticks lead to nothing while there is no
/// connection.
pub proof fn law_other_events_lead_to_this(
    manager: MqttManager,
    session: Session,
    state: MonitorState,
    available: bool,
    usage: Option<String>,
    temperature: Option<String>,
)
    ensures
        manager.actions_for(session, Event::OtherPacket).len() == 0,
        manager.actions_for(session, Event::TempAnnounced(available)).len() == 0,
        manager.actions_for(session, Event::ConnectionLost) == seq![
            ActionView::Pause { millis: 1000 },
        ],
        state == session.current ==> manager.actions_for(session, Event::Monitor(state)).len() == 0,
        state != session.current ==> manager.actions_for(session, Event::Monitor(state)) == seq![
            ActionView::ArmDebounce { millis: 3000 },
        ],
        !session.connected ==> manager.actions_for(
            session,
            Event::Tick { usage, temperature },
        ).len() == 0,
        session.pending is None || !session.connected ==> manager.actions_for(
            session,
            Event::DebounceElapsed,
        ).len() == 0,
{
}

/// The service ends with a farewell of half a second, that the monitor is off
/// and the device offline, if and only if the broker is connected; nothing else
/// of where it stands matters.
pub proof fn law_farewell_depends_on_the_connection_only(manager: MqttManager, session: Session)
    ensures
        session.connected ==> manager.actions_for(session, Event::Shutdown) == seq![
            ActionView::Farewell {
                messages: seq![
                    manager.state_message(MonitorState::Off),
                    manager.online_message(false),
                ],
                millis: 500,
            },
            ActionView::Stop,
        ],
        !session.connected ==> manager.actions_for(session, Event::Shutdown) == seq![
            ActionView::Stop,
        ],
{
}

/// The broker is addressed as the configuration says: under its host and port,
/// by the name of the device, with a keep-alive of ten seconds and a clean
/// session, with credentials if and only if there are both parts of them, and
/// with the device's last will. Nothing else of the configuration matters.
pub proof fn law_broker_is_addressed_as_configured(config: Config)
    ensures
        ({
            let options = connect_options(config);
            &&& options.client_id == "watchdesk_"@ + config.device.name@
            &&& options.host == config.mqtt.host@
            &&& options.port == config.mqtt.port
            &&& options.keep_alive_secs == 10
            &&& options.clean_session
            &&& config.mqtt.username is Some && config.mqtt.password is Some ==> options.credentials
                == Some((config.mqtt.username->0@, config.mqtt.password->0@))
            &&& config.mqtt.username is None || config.mqtt.password is None
                ==> options.credentials is None
            &&& options.last_will matches Some(will) && {
                &&& will.topic == "watchdesk/"@ + slug_of(config.device.name@) + "/availability"@
                &&& will.payload == encode_utf8("offline"@)
                &&& will.delivery == Delivery::AtLeastOnce
                &&& will.retain
            }
        }),
{
}

/// An interval of zero counts as a second, and every other as itself.
pub proof fn law_intervals_are_at_least_a_second(secs: u64)
    ensures
        at_least_one(secs) >= 1,
        secs >= 1 ==> at_least_one(secs) == secs,
        at_least_one(0) == 1,
{
}

/// The models of messages and actions show all that they hold.
pub proof fn law_models_are_faithful(
    message: Message,
    messages: Vec<Message>,
    actions: Seq<Action>,
    available: bool,
    millis: u64,
    i: int,
)
    ensures
        actions_view(actions).len() == actions.len(),
        0 <= i < actions.len() ==> actions_view(actions)[i] == actions[i]@,
        message@.topic == message.topic@,
        message@.payload == message.payload@,
        message@.delivery == message.delivery,
        message@.retain == message.retain,
        messages_view(messages@).len() == messages@.len(),
        0 <= i < messages@.len() ==> messages_view(messages@)[i] == messages@[i]@,
        Action::Publish(messages)@ == ActionView::Publish(messages_view(messages@)),
        Action::TryPublish(message)@ == ActionView::TryPublish(message@),
        (Action::AnnounceTemp { message, available })@ == (ActionView::AnnounceTemp {
            message: message@,
            available,
        }),
        (Action::ArmDebounce { millis })@ == (ActionView::ArmDebounce { millis }),
        (Action::Pause { millis })@ == (ActionView::Pause { millis }),
        (Action::Farewell { messages, millis })@ == (ActionView::Farewell {
            messages: messages_view(messages@),
            millis,
        }),
        Action::Stop@ == ActionView::Stop,
{
}

/// The device block names the device by its slug, so that devices with different
/// slugs are different devices, and shows it under its own name.
pub proof fn law_devices_are_told_apart(
    slug: Seq<char>,
    name: Seq<char>,
    other_slug: Seq<char>,
    other_name: Seq<char>,
)
    ensures
        ({
            let device = device_json(slug, name);
            let other = device_json(other_slug, other_name);
            &&& device is Object
            &&& device->Object_0.dom() == set![
                "identifiers"@,
                "name"@,
                "manufacturer"@,
                "model"@,
            ]
            &&& member(device, "identifiers"@) == Some(
                Json::List(seq![Json::Text("watchdesk_"@ + slug)]),
            )
            &&& member(device, "name"@) == Some(Json::Text(name))
            &&& member(device, "manufacturer"@) == Some(Json::Text("WatchDesk - meltingice1337"@))
            &&& member(device, "model"@) == Some(Json::Text("PC Status & Sensors"@))
            &&& member(device, "identifiers"@) == member(other, "identifiers"@) ==> slug
                == other_slug
        }),
{
    reveal_strlit("identifiers");
    reveal_strlit("name");
    reveal_strlit("manufacturer");
    reveal_strlit("model");
    assert("identifiers"@[0] == 'i' && "name"@[0] == 'n');
    assert("manufacturer"@[0] == 'm' && "model"@[0] == 'm');
    assert("manufacturer"@.len() != "model"@.len());
    let ids = seq![Json::Text("watchdesk_"@ + slug)];
    let other_ids = seq![Json::Text("watchdesk_"@ + other_slug)];
    if Json::List(ids) == Json::List(other_ids) {
        assert(ids[0] == other_ids[0]);
        let n = "watchdesk_"@.len() as int;
        assert(("watchdesk_"@ + slug).skip(n) == slug);
        assert(("watchdesk_"@ + other_slug).skip(n) == other_slug);
    }
}

/// The monitor's document holds these members and no other, whatever the device.
pub proof fn law_monitor_document_holds_this(slug: Seq<char>, name: Seq<char>)
    ensures
        ({
            let document = monitor_json(slug, name);
            &&& document is Object
            &&& document->Object_0.dom() == set![
                "name"@,
                "icon"@,
                "state_topic"@,
                "payload_on"@,
                "payload_off"@,
                "unique_id"@,
                "device"@,
            ]
            &&& member(document, "name"@) == Some(Json::Null)
            &&& member(document, "icon"@) == Some(Json::Text("mdi:desktop-tower"@))
            &&& member(document, "state_topic"@) == Some(
                Json::Text("watchdesk/"@ + slug + "/monitor/state"@),
            )
            &&& member(document, "payload_on"@) == Some(Json::Text("ON"@))
            &&& member(document, "payload_off"@) == Some(Json::Text("OFF"@))
            &&& member(document, "unique_id"@) == Some(
                Json::Text("watchdesk_"@ + slug + "_power"@),
            )
            &&& member(document, "device"@) == Some(device_json(slug, name))
        }),
{
    reveal_strlit("name");
    reveal_strlit("icon");
    reveal_strlit("state_topic");
    reveal_strlit("payload_on");
    reveal_strlit("payload_off");
    reveal_strlit("unique_id");
    reveal_strlit("device");
    assert("name"@[0] == 'n' && "icon"@[0] == 'i' && "state_topic"@[0] == 's');
    assert("payload_on"@[0] == 'p' && "payload_off"@[0] == 'p');
    assert("payload_on"@.len() != "payload_off"@.len());
    assert("unique_id"@[0] == 'u' && "device"@[0] == 'd');
}

/// The CPU usage's document holds these members and no other, whatever the
/// device.
pub proof fn law_usage_document_holds_this(slug: Seq<char>, name: Seq<char>)
    ensures
        ({
            let document = cpu_usage_json(slug, name);
            &&& document is Object
            &&& document->Object_0.dom() == set![
                "name"@,
                "icon"@,
                "state_topic"@,
                "unit_of_measurement"@,
                "state_class"@,
                "suggested_display_precision"@,
                "availability_topic"@,
                "payload_available"@,
                "payload_not_available"@,
                "unique_id"@,
                "device"@,
            ]
            &&& member(document, "name"@) == Some(Json::Text("CPU Usage"@))
            &&& member(document, "icon"@) == Some(Json::Text("mdi:cpu-64-bit"@))
            &&& member(document, "state_topic"@) == Some(
                Json::Text("watchdesk/"@ + slug + "/cpu/usage"@),
            )
            &&& member(document, "unit_of_measurement"@) == Some(Json::Text("%"@))
            &&& member(document, "state_class"@) == Some(Json::Text("measurement"@))
            &&& member(document, "suggested_display_precision"@) == Some(Json::Number(0))
            &&& member(document, "availability_topic"@) == Some(
                Json::Text("watchdesk/"@ + slug + "/availability"@),
            )
            &&& member(document, "payload_available"@) == Some(Json::Text("online"@))
            &&& member(document, "payload_not_available"@) == Some(Json::Text("offline"@))
            &&& member(document, "unique_id"@) == Some(
                Json::Text("watchdesk_"@ + slug + "_cpu_usage"@),
            )
            &&& member(document, "device"@) == Some(device_json(slug, name))
        }),
{
    reveal_strlit("name");
    reveal_strlit("icon");
    reveal_strlit("state_topic");
    reveal_strlit("unit_of_measurement");
    reveal_strlit("state_class");
    reveal_strlit("suggested_display_precision");
    reveal_strlit("availability_topic");
    reveal_strlit("payload_available");
    reveal_strlit("payload_not_available");
    reveal_strlit("unique_id");
    reveal_strlit("device");
    assert("name"@[0] == 'n' && "icon"@[0] == 'i' && "device"@[0] == 'd');
    assert("state_topic"@[0] == 's' && "state_class"@[0] == 's');
    assert("state_topic"@[6] == 't' && "state_class"@[6] == 'c');
    assert("suggested_display_precision"@[0] == 's');
    assert("suggested_display_precision"@.len() != "state_topic"@.len());
    assert("suggested_display_precision"@.len() != "state_class"@.len());
    assert("unit_of_measurement"@[0] == 'u' && "unique_id"@[0] == 'u');
    assert("unit_of_measurement"@.len() != "unique_id"@.len());
    assert("availability_topic"@[0] == 'a');
    assert("payload_available"@[0] == 'p' && "payload_not_available"@[0] == 'p');
    assert("payload_available"@.len() != "payload_not_available"@.len());
}

/// The CPU temperature's document holds these members and no other, whatever
/// the device.
pub proof fn law_temperature_document_holds_this(slug: Seq<char>, name: Seq<char>)
    ensures
        ({
            let document = cpu_temp_json(slug, name);
            let topics = member(document, "availability"@);
            &&& document is Object
            &&& document->Object_0.dom() == set![
                "name"@,
                "device_class"@,
                "state_topic"@,
                "unit_of_measurement"@,
                "state_class"@,
                "suggested_display_precision"@,
                "availability_mode"@,
                "availability"@,
                "payload_available"@,
                "payload_not_available"@,
                "unique_id"@,
                "device"@,
            ]
            &&& member(document, "name"@) == Some(Json::Text("CPU Temperature"@))
            &&& member(document, "device_class"@) == Some(Json::Text("temperature"@))
            &&& member(document, "state_topic"@) == Some(
                Json::Text("watchdesk/"@ + slug + "/cpu/temperature"@),
            )
            &&& member(document, "unit_of_measurement"@) == Some(Json::Text("\u{b0}C"@))
            &&& member(document, "state_class"@) == Some(Json::Text("measurement"@))
            &&& member(document, "suggested_display_precision"@) == Some(Json::Number(1))
            &&& member(document, "availability_mode"@) == Some(Json::Text("all"@))
            &&& topics is Some && topics->0 is List && topics->0->List_0.len() == 2
            &&& names_one_topic(
                topics->0->List_0[0],
                "watchdesk/"@ + slug + "/availability"@,
            )
            &&& names_one_topic(
                topics->0->List_0[1],
                "watchdesk/"@ + slug + "/cpu/temperature/availability"@,
            )
            &&& member(document, "payload_available"@) == Some(Json::Text("online"@))
            &&& member(document, "payload_not_available"@) == Some(Json::Text("offline"@))
            &&& member(document, "unique_id"@) == Some(
                Json::Text("watchdesk_"@ + slug + "_cpu_temp"@),
            )
            &&& member(document, "device"@) == Some(device_json(slug, name))
        }),
{
    reveal_strlit("name");
    reveal_strlit("device_class");
    reveal_strlit("state_topic");
    reveal_strlit("unit_of_measurement");
    reveal_strlit("state_class");
    reveal_strlit("suggested_display_precision");
    reveal_strlit("availability_mode");
    reveal_strlit("availability");
    reveal_strlit("payload_available");
    reveal_strlit("payload_not_available");
    reveal_strlit("unique_id");
    reveal_strlit("device");
    assert("name"@[0] == 'n' && "device"@[0] == 'd' && "device_class"@[0] == 'd');
    assert("device"@.len() != "device_class"@.len());
    assert("state_topic"@[0] == 's' && "state_class"@[0] == 's');
    assert("state_topic"@[6] == 't' && "state_class"@[6] == 'c');
    assert("suggested_display_precision"@[0] == 's');
    assert("suggested_display_precision"@.len() != "state_topic"@.len());
    assert("suggested_display_precision"@.len() != "state_class"@.len());
    assert("unit_of_measurement"@[0] == 'u' && "unique_id"@[0] == 'u');
    assert("unit_of_measurement"@.len() != "unique_id"@.len());
    assert("availability_mode"@[0] == 'a' && "availability"@[0] == 'a');
    assert("availability_mode"@.len() != "availability"@.len());
    assert("payload_available"@[0] == 'p' && "payload_not_available"@[0] == 'p');
    assert("payload_available"@.len() != "payload_not_available"@.len());
}

/// Whether a JSON object holds one topic and nothing else.
pub open spec fn names_one_topic(json: Json, topic: Seq<char>) -> bool {
    &&& json is Object
    &&& json->Object_0.dom() == set!["topic"@]
    &&& member(json, "topic"@) == Some(Json::Text(topic))
}

/// The temperature is read from the tool where it is wanted and there is one,
/// and it is told apart whether there is no tool or no wish for one.
pub proof fn law_temperature_source(manager: &MqttManager, source: TempSource)
    requires
        call_ensures(MqttManager::temp_source, (manager,), source),
    ensures
        source is Disabled <==> !manager.metrics.cpu_temp,
        source is Missing <==> manager.metrics.cpu_temp && manager.temp_cli is None,
        source is Tool <==> manager.metrics.cpu_temp && manager.temp_cli is Some,
        source is Tool ==> source->Tool_0@ == manager.temp_cli->0@,
{
}

/// The manager of a configured device speaks for that device, with its metrics
/// and its tool, and connects as the configuration says.
pub proof fn law_manager_speaks_for_its_device(
    config: &Config,
    default_cli_exists: bool,
    res: (MqttManager, rumqttc::MqttOptions),
)
    requires
        call_ensures(MqttManager::new, (config, default_cli_exists), res),
    ensures
        res.0.device_name@ == config.device.name@,
        res.0.metrics == config.metrics,
        config.metrics.ryzen_master_cli is Some ==> res.0.temp_cli is Some && res.0.temp_cli->0@
            == config.metrics.ryzen_master_cli->0@,
        config.metrics.ryzen_master_cli is None ==> (res.0.temp_cli is Some <==> default_cli_exists),
        options_of(res.1).client_id == "watchdesk_"@ + config.device.name@,
        options_of(res.1).host == config.mqtt.host@,
        options_of(res.1).port == config.mqtt.port,
        options_of(res.1).keep_alive_secs == 10,
        options_of(res.1).last_will is Some,
        options_of(res.1).last_will->0.topic == res.0.online_message(false).topic,
{
}

/// Ticks are as far apart as the configuration says, and at least a second; the
/// usage is sampled if and only if it is wanted.
pub proof fn law_ticks_are_as_configured(manager: &MqttManager, secs: u64, samples: bool)
    requires
        call_ensures(MqttManager::poll_secs, (manager,), secs),
        call_ensures(MqttManager::samples_usage, (manager,), samples),
    ensures
        manager.metrics.interval_secs > 0 ==> secs == manager.metrics.interval_secs,
        manager.metrics.interval_secs == 0 ==> secs == 1,
        samples == manager.metrics.cpu_usage,
{
}

/// The debounce can end if and only if a state is pending, and at the start none
/// is.
pub proof fn law_debounce_waits_for_a_pending_state(session: &Session, res: bool, fresh: Session)
    requires
        call_ensures(Session::debouncing, (session,), res),
        call_ensures(Session::new, (), fresh),
    ensures
        res <==> session.pending is Some,
        fresh.pending is None,
        fresh.current == MonitorState::On,
        !fresh.connected,
        fresh.temp_available is None,
{
}

} // verus!
