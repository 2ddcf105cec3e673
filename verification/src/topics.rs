//! The MQTT topics of a device.
use crate::text::alphanumeric;
use crate::text::lowercase;
use crate::text::unicode_alphanumeric;
use crate::text::unicode_lowercase;
use vstd::prelude::*;
use vstd::string::StringExecFns;
use vstd::utf8::is_ascii_chars;

verus! {

/// The topics that a device publishes to.
#[derive(Debug, Clone, Copy, PartialEq, Eq, Structural)]
pub enum Topic {
    /// Whether the device is online.
    Availability,
    /// Whether the monitor is on.
    MonitorState,
    /// The CPU usage.
    CpuUsage,
    /// The CPU temperature.
    CpuTemp,
    /// Whether there is a CPU temperature.
    CpuTempAvailability,
    /// The monitor as Home Assistant is to show it.
    MonitorDiscovery,
    /// The CPU usage as Home Assistant is to show it.
    CpuUsageDiscovery,
    /// The CPU temperature as Home Assistant is to show it.
    CpuTempDiscovery,
}

/// What a character of a device's name becomes in its topics.
pub open spec fn slug_char(c: char) -> char {
    if alphanumeric(c) {
        c
    } else {
        '_'
    }
}

/// The name of a device as it stands in topics: in lower case, and with an
/// underscore for each character that is no letter and no digit.
pub open spec fn slug_of(name: Seq<char>) -> Seq<char> {
    lowercase(name).map_values(|c: char| slug_char(c))
}

/// What stands before the device's name in a topic.
pub open spec fn before_slug(topic: Topic) -> Seq<char> {
    match topic {
        Topic::MonitorDiscovery => "homeassistant/binary_sensor/watchdesk_"@,
        Topic::CpuUsageDiscovery => "homeassistant/sensor/watchdesk_"@,
        Topic::CpuTempDiscovery => "homeassistant/sensor/watchdesk_"@,
        _ => "watchdesk/"@,
    }
}

/// What stands behind the device's name in a topic.
pub open spec fn after_slug(topic: Topic) -> Seq<char> {
    match topic {
        Topic::Availability => "/availability"@,
        Topic::MonitorState => "/monitor/state"@,
        Topic::CpuUsage => "/cpu/usage"@,
        Topic::CpuTemp => "/cpu/temperature"@,
        Topic::CpuTempAvailability => "/cpu/temperature/availability"@,
        Topic::MonitorDiscovery => "_monitor/config"@,
        Topic::CpuUsageDiscovery => "_cpu_usage/config"@,
        Topic::CpuTempDiscovery => "_cpu_temp/config"@,
    }
}

/// A topic of the device with this slug.
pub open spec fn topic_text(topic: Topic, slug: Seq<char>) -> Seq<char> {
    before_slug(topic) + slug + after_slug(topic)
}

/// The name of a device as it stands in topics.
pub fn slug(name: &str) -> (res: String)
    ensures
        res@ == slug_of(name@),
{
    let lower = name.to_lowercase();
    let mut res = String::new();
    for c in it: lower.as_str().chars()
        invariant
            it.seq() == lower@,
            lower@ == lowercase(name@),
            res@ == lower@.take(it.index() as int).map_values(|c: char| slug_char(c)),
    {
        let ghost i = it.index() as int;
        assert(lower@.take(i + 1) == lower@.take(i).push(c));
        if c.is_alphanumeric() {
            res.push(c);
        } else {
            res.push('_');
        }
    }
    assert(lower@.take(lower@.len() as int) == lower@);
    res
}

/// A topic of the device with this slug.
pub fn topic(which: Topic, slug: &str) -> (res: String)
    ensures
        res@ == topic_text(which, slug@),
{
    let before = match which {
        Topic::MonitorDiscovery => "homeassistant/binary_sensor/watchdesk_",
        Topic::CpuUsageDiscovery => "homeassistant/sensor/watchdesk_",
        Topic::CpuTempDiscovery => "homeassistant/sensor/watchdesk_",
        _ => "watchdesk/",
    };
    let after = match which {
        Topic::Availability => "/availability",
        Topic::MonitorState => "/monitor/state",
        Topic::CpuUsage => "/cpu/usage",
        Topic::CpuTemp => "/cpu/temperature",
        Topic::CpuTempAvailability => "/cpu/temperature/availability",
        Topic::MonitorDiscovery => "_monitor/config",
        Topic::CpuUsageDiscovery => "_cpu_usage/config",
        Topic::CpuTempDiscovery => "_cpu_temp/config",
    };
    before.to_owned().concat(slug).concat(after)
}

/// Whether a character does not occur in a text.
pub open spec fn free_of(s: Seq<char>, c: char) -> bool {
    forall|i: int| 0 <= i < s.len() ==> s[i] != c
}

/// A slug holds no level separator and no wildcard of MQTT, whatever the name.
pub proof fn law_slug_is_one_level(name: Seq<char>)
    ensures
        free_of(slug_of(name), '/'),
        free_of(slug_of(name), '+'),
        free_of(slug_of(name), '#'),
{
}

/// The slug of an ASCII name has one character for each of the name's, and
/// each is a small letter, a digit or an underscore. It is its own slug.
pub proof fn law_ascii_slug(name: Seq<char>)
    requires
        is_ascii_chars(name),
    ensures
        slug_of(name).len() == name.len(),
        forall|i: int|
            0 <= i < name.len() ==> {
                let c = #[trigger] slug_of(name)[i];
                ||| 'a' <= c <= 'z'
                ||| '0' <= c <= '9'
                ||| c == '_'
            },
        slug_of(slug_of(name)) == slug_of(name),
{
    assert(is_ascii_chars(slug_of(name)));
    assert(slug_of(slug_of(name)) =~= slug_of(name));
}

/// A slug has one character for each of the name's in lower case, in the same
/// place: the character itself where it is a letter or a digit, else an
/// underscore. It is its own slug where it has no other lower case.
pub proof fn law_slug_keeps_its_places(name: Seq<char>)
    ensures
        slug_of(name).len() == lowercase(name).len(),
        forall|i: int|
            0 <= i < slug_of(name).len() ==> #[trigger] slug_of(name)[i] == (if alphanumeric(
                lowercase(name)[i],
            ) {
                lowercase(name)[i]
            } else {
                '_'
            }),
        lowercase(slug_of(name)) == slug_of(name) ==> slug_of(slug_of(name)) == slug_of(name),
{
    if lowercase(slug_of(name)) == slug_of(name) {
        assert(slug_of(slug_of(name)) =~= slug_of(name));
    }
}

/// Whether a character does not occur among the first `n` of a text.
spec fn free_to(s: Seq<char>, c: char, n: nat) -> bool
    decreases n,
{
    n == 0 || (s[n - 1] != c && free_to(s, c, (n - 1) as nat))
}

proof fn lemma_free_to(s: Seq<char>, c: char, n: nat)
    requires
        free_to(s, c, n),
    ensures
        forall|i: int| 0 <= i < n ==> s[i] != c,
    decreases n,
{
    if n > 0 {
        lemma_free_to(s, c, (n - 1) as nat);
    }
}

/// What stands before and behind the slug in a topic holds no wildcard.
proof fn lemma_frames_hold_no_wildcard(topic: Topic, c: char)
    requires
        c == '+' || c == '#',
    ensures
        free_of(before_slug(topic), c),
        free_of(after_slug(topic), c),
{
    reveal_with_fuel(free_to, 40);
    reveal_strlit("homeassistant/binary_sensor/watchdesk_");
    reveal_strlit("homeassistant/sensor/watchdesk_");
    reveal_strlit("watchdesk/");
    reveal_strlit("/availability");
    reveal_strlit("/monitor/state");
    reveal_strlit("/cpu/usage");
    reveal_strlit("/cpu/temperature");
    reveal_strlit("/cpu/temperature/availability");
    reveal_strlit("_monitor/config");
    reveal_strlit("_cpu_usage/config");
    reveal_strlit("_cpu_temp/config");
    lemma_free_to(before_slug(topic), c, before_slug(topic).len());
    lemma_free_to(after_slug(topic), c, after_slug(topic).len());
}

/// Every topic of a device is one that may be published to: it holds no
/// wildcard.
pub proof fn law_topics_hold_no_wildcard(topic: Topic, name: Seq<char>)
    ensures
        free_of(topic_text(topic, slug_of(name)), '+'),
        free_of(topic_text(topic, slug_of(name)), '#'),
{
    law_slug_is_one_level(name);
    lemma_frames_hold_no_wildcard(topic, '+');
    lemma_frames_hold_no_wildcard(topic, '#');
}

/// Where a level ends is told by the separator behind it.
proof fn lemma_level_ends(p: Seq<char>, s: Seq<char>, x: Seq<char>, t: Seq<char>, y: Seq<char>)
    requires
        p + s + x == p + t + y,
        free_of(s, '/'),
        free_of(t, '/'),
        x.len() > 0,
        y.len() > 0,
        x[0] == '/',
        y[0] == '/',
    ensures
        s == t,
        x == y,
{
    let l = p + s + x;
    let r = p + t + y;
    let n = p.len() as int;
    if s.len() < t.len() {
        assert(l[n + s.len()] == '/');
        assert(r[n + s.len()] == t[s.len() as int]);
        assert(false);
    }
    if t.len() < s.len() {
        assert(r[n + t.len()] == '/');
        assert(l[n + t.len()] == s[t.len() as int]);
        assert(false);
    }
    assert(l.len() == n + s.len() + x.len());
    assert(r.len() == n + t.len() + y.len());
    assert forall|i: int| 0 <= i < s.len() implies s[i] == t[i] by {
        assert(l[n + i] == s[i]);
        assert(r[n + i] == t[i]);
    }
    assert forall|i: int| 0 <= i < x.len() implies x[i] == y[i] by {
        assert(l[n + s.len() + i] == x[i]);
        assert(r[n + s.len() + i] == y[i]);
    }
    assert(s =~= t);
    assert(x =~= y);
}

/// Two topics are the same only where they are the same topic of devices with
/// the same slug: what one device publishes is never taken for anything else.
pub proof fn law_topics_never_collide(a: Topic, m: Seq<char>, b: Topic, n: Seq<char>)
    requires
        topic_text(a, slug_of(m)) == topic_text(b, slug_of(n)),
    ensures
        a == b,
        slug_of(m) == slug_of(n),
{
    let s = slug_of(m);
    let t = slug_of(n);
    let l = topic_text(a, s);
    let r = topic_text(b, t);
    law_slug_is_one_level(m);
    law_slug_is_one_level(n);
    reveal_strlit("homeassistant/binary_sensor/watchdesk_");
    reveal_strlit("homeassistant/sensor/watchdesk_");
    reveal_strlit("watchdesk/");
    reveal_strlit("/availability");
    reveal_strlit("/monitor/state");
    reveal_strlit("/cpu/usage");
    reveal_strlit("/cpu/temperature");
    reveal_strlit("/cpu/temperature/availability");
    reveal_strlit("_monitor/config");
    reveal_strlit("_cpu_usage/config");
    reveal_strlit("_cpu_temp/config");
    assert(l[0] == before_slug(a)[0] && r[0] == before_slug(b)[0]);
    if before_slug(a)[0] == 'w' {
        assert(before_slug(a) == before_slug(b));
        lemma_level_ends(before_slug(a), s, after_slug(a), t, after_slug(b));
        assert(after_slug(a).len() == after_slug(b).len());
    } else {
        assert(l[14] == before_slug(a)[14] && r[14] == before_slug(b)[14]);
        assert(before_slug(a) == before_slug(b));
        let x = after_slug(a);
        let y = after_slug(b);
        assert(l[l.len() - 8] == x[x.len() - 8]);
        assert(r[r.len() - 8] == y[y.len() - 8]);
        assert(a == b);
        assert(s.len() == t.len());
        assert forall|i: int| 0 <= i < s.len() implies s[i] == t[i] by {
            assert(l[before_slug(a).len() + i] == s[i]);
            assert(r[before_slug(a).len() + i] == t[i]);
        }
        assert(s =~= t);
    }
}

/// A device publishes to these topics, whatever its slug.
pub proof fn law_topics_are_these(slug: Seq<char>)
    ensures
        topic_text(Topic::Availability, slug) == "watchdesk/"@ + slug + "/availability"@,
        topic_text(Topic::MonitorState, slug) == "watchdesk/"@ + slug + "/monitor/state"@,
        topic_text(Topic::CpuUsage, slug) == "watchdesk/"@ + slug + "/cpu/usage"@,
        topic_text(Topic::CpuTemp, slug) == "watchdesk/"@ + slug + "/cpu/temperature"@,
        topic_text(Topic::CpuTempAvailability, slug) == "watchdesk/"@ + slug
            + "/cpu/temperature/availability"@,
        topic_text(Topic::MonitorDiscovery, slug) == "homeassistant/binary_sensor/watchdesk_"@
            + slug + "_monitor/config"@,
        topic_text(Topic::CpuUsageDiscovery, slug) == "homeassistant/sensor/watchdesk_"@ + slug
            + "_cpu_usage/config"@,
        topic_text(Topic::CpuTempDiscovery, slug) == "homeassistant/sensor/watchdesk_"@ + slug
            + "_cpu_temp/config"@,
{
}

/// The slug of an ASCII name has in each place the letter of the name in that
/// place in lower case, or the digit, or an underscore for anything else; of any
/// other name it has the letters and digits that Unicode's lower case gives.
pub proof fn law_slug_is_lower_case_and_underscores(name: Seq<char>, i: int)
    ensures
        is_ascii_chars(name) && 0 <= i < name.len() ==> slug_of(name).len() == name.len()
            && slug_of(name)[i] == (if 'a' <= name[i] <= 'z' || '0' <= name[i] <= '9' {
            name[i]
        } else if 'A' <= name[i] <= 'Z' {
            ((name[i] as u32) - ('A' as u32) + ('a' as u32)) as char
        } else {
            '_'
        }),
        !is_ascii_chars(name) ==> slug_of(name).len() == unicode_lowercase(name).len(),
        !is_ascii_chars(name) && 0 <= i < unicode_lowercase(name).len() ==> {
            let c = unicode_lowercase(name)[i];
            slug_of(name)[i] == (if (c as u32) >= 128 {
                if unicode_alphanumeric(c) {
                    c
                } else {
                    '_'
                }
            } else if 'a' <= c <= 'z' || 'A' <= c <= 'Z' || '0' <= c <= '9' {
                c
            } else {
                '_'
            })
        },
{
}

} // verus!
