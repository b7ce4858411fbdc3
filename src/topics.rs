use vstd::prelude::*;

verus! {

/// Who the device is; fixed for the life of the process.
pub struct DeviceIdentity {
    pub device_id: String,
    pub owner: String,
}

/// The three topics one messaging session uses.
pub struct TopicSet {
    pub publish_topic: String,
    pub subscribe_topic: String,
    pub shadow_topic: String,
}

/// `"{device_id}/{base}"`.
pub open spec fn device_topic_spec(device_id: Seq<char>, base: Seq<char>) -> Seq<char> {
    device_id + "/"@ + base
}

/// `"$aws/things/{device_id}/shadow/update"`.
pub open spec fn shadow_topic_spec(device_id: Seq<char>) -> Seq<char> {
    "$aws/things/"@ + device_id + "/shadow/update"@
}

/// `"mqtts://{host}:{port}"`.
pub open spec fn broker_url_spec(host: Seq<char>, port: Seq<char>) -> Seq<char> {
    "mqtts://"@ + host + ":"@ + port
}

/// A topic scoped to one device: the device id, a slash, the base topic.
pub fn device_topic(device_id: &str, base: &str) -> (r: String)
    ensures
        r@ == device_topic_spec(device_id@, base@),
{
    let mut s = String::from_str(device_id);
    s.append("/");
    s.append(base);
    s
}

/// The device shadow's update topic.
pub fn shadow_topic(device_id: &str) -> (r: String)
    ensures
        r@ == shadow_topic_spec(device_id@),
{
    let mut s = String::from_str("$aws/things/");
    s.append(device_id);
    s.append("/shadow/update");
    s
}

/// The encrypted-transport connection URL for a broker.
pub fn broker_url(host: &str, port: &str) -> (r: String)
    ensures
        r@ == broker_url_spec(host@, port@),
{
    let mut s = String::from_str("mqtts://");
    s.append(host);
    s.append(":");
    s.append(port);
    s
}

impl DeviceIdentity {
    pub fn new(device_id: &str, owner: &str) -> (r: DeviceIdentity)
        ensures
            r.device_id@ == device_id@,
            r.owner@ == owner@,
    {
        DeviceIdentity { device_id: String::from_str(device_id), owner: String::from_str(owner) }
    }
}

impl TopicSet {
    /// Derives the session's topics from the device id and the two base topics.
    /// Empty inputs are not corrected: they give topics such as `"/pub"`, and
    /// `is_valid_config` reports them.
    pub fn derive(device_id: &str, publish_base: &str, subscribe_base: &str) -> (r: TopicSet)
        ensures
            r.publish_topic@ == device_topic_spec(device_id@, publish_base@),
            r.subscribe_topic@ == device_topic_spec(device_id@, subscribe_base@),
            r.shadow_topic@ == shadow_topic_spec(device_id@),
    {
        TopicSet {
            publish_topic: device_topic(device_id, publish_base),
            subscribe_topic: device_topic(device_id, subscribe_base),
            shadow_topic: shadow_topic(device_id),
        }
    }

    /// A configuration is valid when the device id and both base topics are non-empty.
    pub fn is_valid_config(device_id: &str, publish_base: &str, subscribe_base: &str) -> (r: bool)
        ensures
            r == (device_id@.len() > 0 && publish_base@.len() > 0 && subscribe_base@.len() > 0),
    {
        device_id.unicode_len() > 0 && publish_base.unicode_len() > 0
            && subscribe_base.unicode_len() > 0
    }
}

} // verus!
