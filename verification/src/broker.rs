//! How the MQTT broker is addressed: the connection options of `rumqttc`.
use rumqttc::LastWill;
use rumqttc::MqttOptions;
use rumqttc::QoS;
use std::time::Duration;
use vstd::prelude::*;
use vstd::utf8::encode_utf8;

verus! {

/// How often a message is delivered.
#[derive(Debug, Clone, Copy, PartialEq, Eq, Structural)]
pub enum Delivery {
    AtMostOnce,
    AtLeastOnce,
    ExactlyOnce,
}

/// The message that the broker publishes for a client that is gone.
pub ghost struct Will {
    pub topic: Seq<char>,
    pub payload: Seq<u8>,
    pub delivery: Delivery,
    pub retain: bool,
}

/// The part of the connection options that this library sets.
pub ghost struct Options {
    pub client_id: Seq<char>,
    pub host: Seq<char>,
    pub port: u16,
    pub keep_alive_secs: u64,
    pub clean_session: bool,
    pub credentials: Option<(Seq<char>, Seq<char>)>,
    pub last_will: Option<Will>,
}

/// The connection options of `rumqttc`.
#[verifier::external_type_specification]
#[verifier::external_body]
pub struct ExMqttOptions(rumqttc::MqttOptions);

/// The last will of `rumqttc`.
#[verifier::external_type_specification]
#[verifier::external_body]
pub struct ExLastWill(rumqttc::LastWill);

/// What connection options hold.
pub uninterp spec fn options_of(options: MqttOptions) -> Options;

/// What a last will holds.
pub uninterp spec fn will_of(will: LastWill) -> Will;

/// `MqttOptions::new`: the client, the host and the port are those given; the
/// keep-alive interval is a minute, the session is a clean one, and there are
/// neither credentials nor a last will.
#[verifier::external_body]
pub(crate) fn new_options(client_id: &str, host: &str, port: u16) -> (options: MqttOptions)
    ensures
        options_of(options) == (Options {
            client_id: client_id@,
            host: host@,
            port,
            keep_alive_secs: 60,
            clean_session: true,
            credentials: None,
            last_will: None,
        }),
{
    MqttOptions::new(client_id, host, port)
}

/// `MqttOptions::set_keep_alive` on whole seconds: sets the keep-alive
/// interval and nothing else.
#[verifier::external_body]
pub(crate) fn set_keep_alive(options: &mut MqttOptions, secs: u64)
    ensures
        options_of(*final(options)) == (Options {
            keep_alive_secs: secs,
            ..options_of(*old(options))
        }),
{
    options.set_keep_alive(Duration::from_secs(secs));
}

/// `MqttOptions::set_clean_session`: sets whether the session is a clean one
/// and nothing else. It panics on a session that is not clean of a client
/// without a name.
#[verifier::external_body]
pub(crate) fn set_clean_session(options: &mut MqttOptions, clean: bool)
    requires
        clean || options_of(*old(options)).client_id.len() > 0,
    ensures
        options_of(*final(options)) == (Options {
            clean_session: clean,
            ..options_of(*old(options))
        }),
{
    options.set_clean_session(clean);
}

/// `MqttOptions::set_credentials`: sets the user name and the password and
/// nothing else.
#[verifier::external_body]
pub(crate) fn set_credentials(options: &mut MqttOptions, username: &str, password: &str)
    ensures
        options_of(*final(options)) == (Options {
            credentials: Some((username@, password@)),
            ..options_of(*old(options))
        }),
{
    options.set_credentials(username, password);
}

/// `LastWill::new`: a last will with the topic, the bytes of the payload, the
/// delivery and the retain flag given.
#[verifier::external_body]
pub(crate) fn new_will(topic: &str, payload: &str, delivery: Delivery, retain: bool) -> (will:
    LastWill)
    ensures
        will_of(will) == (Will { topic: topic@, payload: encode_utf8(payload@), delivery, retain }),
{
    let qos = match delivery {
        Delivery::AtMostOnce => QoS::AtMostOnce,
        Delivery::AtLeastOnce => QoS::AtLeastOnce,
        Delivery::ExactlyOnce => QoS::ExactlyOnce,
    };
    LastWill::new(topic, payload, qos, retain)
}

/// `MqttOptions::set_last_will`: sets the last will and nothing else.
#[verifier::external_body]
pub(crate) fn set_last_will(options: &mut MqttOptions, will: LastWill)
    ensures
        options_of(*final(options)) == (Options {
            last_will: Some(will_of(will)),
            ..options_of(*old(options))
        }),
{
    options.set_last_will(will);
}

} // verus!
