//! Label-keyed metrics sink.
//!
//! Three series are kept per monitored target, keyed by its (url, name)
//! label pair: a status gauge (1 = UP, 0 = DOWN), a latency gauge holding the
//! most recent check's elapsed time, and one monotonic check counter per
//! result.  Every check overwrites both gauges and grows exactly one
//! counter.  Latency is carried in whole milliseconds.

use vstd::prelude::*;
use vstd::string::StrSliceExecFns;
use vstd::string::StringSliceAdditionalSpecFns;
use vstd::utf8::encode_utf8;

verus! {

/// Most recent observation and running totals for one (url, name) label pair.
pub struct MetricEntry {
    pub url: String,
    pub name: String,
    /// `service_status` gauge: true stands for 1 (UP), false for 0 (DOWN).
    pub status_up: bool,
    /// `service_latency_seconds` gauge, held in whole milliseconds.
    pub latency_ms: u64,
    /// `service_checks_total` counter for result UP.
    pub up_total: u64,
    /// `service_checks_total` counter for result DOWN.
    pub down_total: u64,
}

/// The label pair that addresses an entry.
pub open spec fn entry_key(e: MetricEntry) -> (Seq<char>, Seq<char>) {
    (e.url@, e.name@)
}

/// No two entries carry the same label pair.
pub open spec fn keys_unique(s: Seq<MetricEntry>) -> bool {
    forall|i: int, j: int|
        0 <= i < s.len() && 0 <= j < s.len() && i != j ==> entry_key(s[i]) != entry_key(s[j])
}

/// Some entry carries the given label pair.
pub open spec fn has_key(s: Seq<MetricEntry>, url: Seq<char>, name: Seq<char>) -> bool {
    exists|i: int| 0 <= i < s.len() && entry_key(s[i]) == (url, name)
}

/// A counter step: one more, saturating at the machine limit.
pub open spec fn sat_inc(x: u64) -> u64 {
    if x < u64::MAX {
        (x + 1) as u64
    } else {
        x
    }
}

/// How one check rewrites the entry that carries its labels: both gauges are
/// overwritten with the new observation and exactly the counter of the
/// check's result grows by one.
pub open spec fn entry_recorded(e0: MetricEntry, e1: MetricEntry, up: bool, latency_ms: u64) -> bool {
    &&& e1.url@ == e0.url@
    &&& e1.name@ == e0.name@
    &&& e1.status_up == up
    &&& e1.latency_ms == latency_ms
    &&& e1.up_total == (if up {
        sat_inc(e0.up_total)
    } else {
        e0.up_total
    })
    &&& e1.down_total == (if up {
        e0.down_total
    } else {
        sat_inc(e0.down_total)
    })
}

/// The entry created by the first check ever seen for a label pair.
pub open spec fn entry_fresh(e: MetricEntry, url: Seq<char>, name: Seq<char>, up: bool, latency_ms: u64) -> bool {
    &&& e.url@ == url
    &&& e.name@ == name
    &&& e.status_up == up
    &&& e.latency_ms == latency_ms
    &&& e.up_total == (if up {
        1u64
    } else {
        0u64
    })
    &&& e.down_total == (if up {
        0u64
    } else {
        1u64
    })
}

/// How one recorded check relates the whole sink before and after: the entry
/// carrying the check's labels is rewritten as `entry_recorded` says (created
/// as `entry_fresh` says on the first check for those labels) and every other
/// entry is left alone.
pub open spec fn recorded_into(
    s0: Seq<MetricEntry>,
    s1: Seq<MetricEntry>,
    url: Seq<char>,
    name: Seq<char>,
    up: bool,
    latency_ms: u64,
) -> bool {
    if has_key(s0, url, name) {
        &&& s1.len() == s0.len()
        &&& forall|i: int|
            0 <= i < s0.len() && entry_key(s0[i]) == (url, name) ==> entry_recorded(
                s0[i],
                #[trigger] s1[i],
                up,
                latency_ms,
            )
        &&& forall|i: int|
            0 <= i < s0.len() && entry_key(s0[i]) != (url, name) ==> #[trigger] s1[i] == s0[i]
    } else {
        &&& s1.len() == s0.len() + 1
        &&& forall|i: int| 0 <= i < s0.len() ==> #[trigger] s1[i] == s0[i]
        &&& entry_fresh(s1[s0.len() as int], url, name, up, latency_ms)
    }
}

/// The process-wide set of metric series, written concurrently by the
/// polling loops (each under the owner's lock) and read by the exposition
/// endpoint.
pub struct MetricsSink {
    entries: Vec<MetricEntry>,
}

impl View for MetricsSink {
    type V = Seq<MetricEntry>;

    closed spec fn view(&self) -> Seq<MetricEntry> {
        self.entries@
    }
}

impl MetricsSink {
    /// Label pairs stay unique across the sink.
    pub open spec fn wf(&self) -> bool {
        keys_unique(self@)
    }

    pub fn new() -> (sink: MetricsSink)
        ensures
            sink@ == Seq::<MetricEntry>::empty(),
            sink.wf(),
    {
        MetricsSink { entries: Vec::new() }
    }

    /// The index of the entry carrying the given label pair, if any.
    fn find_index(&self, url: &String, name: &String) -> (r: Option<usize>)
        ensures
            match r {
                Option::Some(i) => i < self@.len() && entry_key(self@[i as int]) == (url@, name@),
                Option::None => !has_key(self@, url@, name@),
            },
    {
        let n = self.entries.len();
        let mut i: usize = 0;
        while i < n
            invariant
                i <= n,
                n == self@.len(),
                forall|j: int| 0 <= j < i ==> entry_key(self@[j]) != (url@, name@),
            decreases n - i,
        {
            if self.entries[i].url == *url && self.entries[i].name == *name {
                return Option::Some(i);
            }
            i = i + 1;
        }
        Option::None
    }

    /// Records one finished check under the given labels: the entry carrying
    /// them is rewritten as `entry_recorded` says, every other entry is left
    /// alone; the first check for a label pair creates its entry.
    pub fn record_check(&mut self, url: &String, name: &String, up: bool, latency_ms: u64)
        requires
            old(self).wf(),
        ensures
            final(self).wf(),
            recorded_into(old(self)@, final(self)@, url@, name@, up, latency_ms),
    {
        match self.find_index(url, name) {
            Option::Some(i) => {
                let e = &mut self.entries[i];
                e.status_up = up;
                e.latency_ms = latency_ms;
                if up {
                    e.up_total = e.up_total.saturating_add(1);
                } else {
                    e.down_total = e.down_total.saturating_add(1);
                }
            },
            Option::None => {
                self.entries.push(
                    MetricEntry {
                        url: url.clone(),
                        name: name.clone(),
                        status_up: up,
                        latency_ms,
                        up_total: if up {
                            1
                        } else {
                            0
                        },
                        down_total: if up {
                            0
                        } else {
                            1
                        },
                    },
                );
            },
        }
    }
}

/// The ASCII digit for the low decimal digit of a number.
pub open spec fn ascii_digit(d: nat) -> u8 {
    (48 + d % 10) as u8
}

/// The decimal numeral of a number, as ASCII bytes, without leading zeros.
pub open spec fn decimal_digits(n: nat) -> Seq<u8>
    decreases n,
{
    if n < 10 {
        seq![ascii_digit(n)]
    } else {
        decimal_digits(n / 10).push(ascii_digit(n))
    }
}

/// A latency in whole milliseconds written as seconds with three decimals,
/// as ASCII bytes (byte 46 is the decimal point).
pub open spec fn latency_seconds_bytes(ms: u64) -> Seq<u8> {
    decimal_digits(ms as nat / 1000) + seq![46u8] + seq![
        ascii_digit(ms as nat % 1000 / 100),
        ascii_digit(ms as nat % 1000 / 10),
        ascii_digit(ms as nat % 1000),
    ]
}

/// How one byte of a label value is written: backslash (92), double quote
/// (34) and newline (10) are escaped with a backslash (a newline as the two
/// bytes backslash, n (110)); every other byte stands as it is.
pub open spec fn escape_byte(b: u8) -> Seq<u8> {
    if b == 92 {
        seq![92u8, 92u8]
    } else if b == 34 {
        seq![92u8, 34u8]
    } else if b == 10 {
        seq![92u8, 110u8]
    } else {
        seq![b]
    }
}

/// A label value with every byte escaped as `escape_byte` says.
pub open spec fn escape_bytes(s: Seq<u8>) -> Seq<u8>
    decreases s.len(),
{
    if s.len() == 0 {
        Seq::<u8>::empty()
    } else {
        escape_bytes(s.drop_last()) + escape_byte(s.last())
    }
}

/// The escaped label pair of an entry, as it stands between the braces of
/// every sample line.
pub open spec fn label_bytes(e: MetricEntry) -> Seq<u8> {
    ("service_health_checkurl=\"").spec_bytes() + escape_bytes(encode_utf8(e.url@)) + (
    "\",service_name=\"").spec_bytes() + escape_bytes(encode_utf8(e.name@))
}

/// One `service_status` sample line: 1 for UP, 0 for DOWN.
pub open spec fn status_line(e: MetricEntry) -> Seq<u8> {
    ("service_status{").spec_bytes() + label_bytes(e) + ("\"} ").spec_bytes() + (if e.status_up {
        ("1").spec_bytes()
    } else {
        ("0").spec_bytes()
    }) + ("\n").spec_bytes()
}

/// One `service_latency_seconds` sample line.
pub open spec fn latency_line(e: MetricEntry) -> Seq<u8> {
    ("service_latency_seconds{").spec_bytes() + label_bytes(e) + ("\"} ").spec_bytes()
        + latency_seconds_bytes(e.latency_ms) + ("\n").spec_bytes()
}

/// One `service_checks_total` sample line for one result label.
pub open spec fn counter_line(e: MetricEntry, up: bool) -> Seq<u8> {
    ("service_checks_total{").spec_bytes() + label_bytes(e) + (if up {
        ("\",result=\"UP\"} ").spec_bytes()
    } else {
        ("\",result=\"DOWN\"} ").spec_bytes()
    }) + decimal_digits(
        (if up {
            e.up_total
        } else {
            e.down_total
        }) as nat,
    ) + ("\n").spec_bytes()
}

/// The `service_checks_total` lines of one entry: one line per result whose
/// series exists, that is whose counter was ever incremented.
pub open spec fn checks_lines(e: MetricEntry) -> Seq<u8> {
    (if e.up_total > 0 {
        counter_line(e, true)
    } else {
        Seq::<u8>::empty()
    }) + (if e.down_total > 0 {
        counter_line(e, false)
    } else {
        Seq::<u8>::empty()
    })
}

/// All `service_status` lines, in entry order.
pub open spec fn status_section(s: Seq<MetricEntry>) -> Seq<u8>
    decreases s.len(),
{
    if s.len() == 0 {
        Seq::<u8>::empty()
    } else {
        status_section(s.drop_last()) + status_line(s.last())
    }
}

/// All `service_latency_seconds` lines, in entry order.
pub open spec fn latency_section(s: Seq<MetricEntry>) -> Seq<u8>
    decreases s.len(),
{
    if s.len() == 0 {
        Seq::<u8>::empty()
    } else {
        latency_section(s.drop_last()) + latency_line(s.last())
    }
}

/// All `service_checks_total` lines, in entry order.
pub open spec fn checks_section(s: Seq<MetricEntry>) -> Seq<u8>
    decreases s.len(),
{
    if s.len() == 0 {
        Seq::<u8>::empty()
    } else {
        checks_section(s.drop_last()) + checks_lines(s.last())
    }
}

/// The whole text exposition of a sink: the three series one after the
/// other, each grouped as the exposition format asks, one sample line per
/// existing label combination.
pub open spec fn spec_exposition(s: Seq<MetricEntry>) -> Seq<u8> {
    status_section(s) + latency_section(s) + checks_section(s)
}

/// Appends the bytes of a string slice.
fn push_str_bytes(out: &mut Vec<u8>, s: &str)
    ensures
        final(out)@ == old(out)@ + s.spec_bytes(),
{
    let mut b = s.as_bytes_vec();
    out.append(&mut b);
}

/// Appends a label value with quote, backslash and newline escaped.
fn push_escaped(out: &mut Vec<u8>, s: &str)
    ensures
        final(out)@ == old(out)@ + escape_bytes(s.spec_bytes()),
{
    let bytes = s.as_bytes_vec();
    let n = bytes.len();
    let mut i: usize = 0;
    while i < n
        invariant
            i <= n,
            n == bytes@.len(),
            bytes@ == s.spec_bytes(),
            out@ == old(out)@ + escape_bytes(bytes@.take(i as int)),
        decreases n - i,
    {
        let b = bytes[i];
        if b == 92 {
            out.push(92);
            out.push(92);
        } else if b == 34 {
            out.push(92);
            out.push(34);
        } else if b == 10 {
            out.push(92);
            out.push(110);
        } else {
            out.push(b);
        }
        proof {
            assert(bytes@.take(i + 1).drop_last() =~= bytes@.take(i as int));
            assert(bytes@.take(i + 1).last() == b);
            assert(out@ =~= old(out)@ + escape_bytes(bytes@.take(i + 1)));
        }
        i = i + 1;
    }
    proof {
        assert(bytes@.take(n as int) =~= bytes@);
    }
}

/// Appends the decimal numeral of a number.
fn push_decimal(out: &mut Vec<u8>, n: u64)
    ensures
        final(out)@ == old(out)@ + decimal_digits(n as nat),
    decreases n,
{
    let d: u8 = (n % 10) as u8 + 48;
    if n < 10 {
        out.push(d);
        proof {
            assert(old(out)@ + decimal_digits(n as nat) =~= old(out)@.push(d));
        }
    } else {
        push_decimal(out, n / 10);
        out.push(d);
        proof {
            assert(old(out)@ + decimal_digits(n as nat) =~= (old(out)@ + decimal_digits(
                n as nat / 10,
            )).push(d));
        }
    }
}

/// Appends a millisecond latency as seconds with three decimals.
fn push_latency_seconds(out: &mut Vec<u8>, ms: u64)
    ensures
        final(out)@ == old(out)@ + latency_seconds_bytes(ms),
{
    push_decimal(out, ms / 1000);
    out.push(46);
    let r = ms % 1000;
    out.push((r / 100) as u8 + 48);
    out.push((r / 10 % 10) as u8 + 48);
    out.push((r % 10) as u8 + 48);
    proof {
        assert(r as nat / 10 % 10 == ms as nat % 1000 / 10 % 10);
        assert(ascii_digit(ms as nat % 1000 / 10) == (ms as nat % 1000 / 10 % 10 + 48) as u8);
        assert(final(out)@ =~= old(out)@ + latency_seconds_bytes(ms));
    }
}

/// Appends the escaped label pair of an entry.
fn push_labels(out: &mut Vec<u8>, e: &MetricEntry)
    ensures
        final(out)@ == old(out)@ + label_bytes(*e),
{
    push_str_bytes(out, "service_health_checkurl=\"");
    push_escaped(out, e.url.as_str());
    push_str_bytes(out, "\",service_name=\"");
    push_escaped(out, e.name.as_str());
    proof {
        assert(final(out)@ =~= old(out)@ + label_bytes(*e));
    }
}

/// Appends the `service_status` line of an entry.
fn push_status_line(out: &mut Vec<u8>, e: &MetricEntry)
    ensures
        final(out)@ == old(out)@ + status_line(*e),
{
    push_str_bytes(out, "service_status{");
    push_labels(out, e);
    push_str_bytes(out, "\"} ");
    if e.status_up {
        push_str_bytes(out, "1");
    } else {
        push_str_bytes(out, "0");
    }
    push_str_bytes(out, "\n");
    proof {
        assert(final(out)@ =~= old(out)@ + status_line(*e));
    }
}

/// Appends the `service_latency_seconds` line of an entry.
fn push_latency_line(out: &mut Vec<u8>, e: &MetricEntry)
    ensures
        final(out)@ == old(out)@ + latency_line(*e),
{
    push_str_bytes(out, "service_latency_seconds{");
    push_labels(out, e);
    push_str_bytes(out, "\"} ");
    push_latency_seconds(out, e.latency_ms);
    push_str_bytes(out, "\n");
    proof {
        assert(final(out)@ =~= old(out)@ + latency_line(*e));
    }
}

/// Appends one `service_checks_total` line of an entry.
fn push_counter_line(out: &mut Vec<u8>, e: &MetricEntry, up: bool)
    ensures
        final(out)@ == old(out)@ + counter_line(*e, up),
{
    push_str_bytes(out, "service_checks_total{");
    push_labels(out, e);
    if up {
        push_str_bytes(out, "\",result=\"UP\"} ");
        push_decimal(out, e.up_total);
    } else {
        push_str_bytes(out, "\",result=\"DOWN\"} ");
        push_decimal(out, e.down_total);
    }
    push_str_bytes(out, "\n");
    proof {
        assert(final(out)@ =~= old(out)@ + counter_line(*e, up));
    }
}

/// Appends the `service_checks_total` lines of an entry.
fn push_checks_lines(out: &mut Vec<u8>, e: &MetricEntry)
    ensures
        final(out)@ == old(out)@ + checks_lines(*e),
{
    if e.up_total > 0 {
        push_counter_line(out, e, true);
    }
    if e.down_total > 0 {
        push_counter_line(out, e, false);
    }
    proof {
        assert(final(out)@ =~= old(out)@ + checks_lines(*e));
    }
}

/// Encodes the current sink state in the flat text exposition format: one
/// line per label combination per series, carrying the series name, the
/// label set and the current value.  A pure function of the sink; it cannot
/// fail.
pub fn gather_metrics(sink: &MetricsSink) -> (out: Vec<u8>)
    ensures
        out@ == spec_exposition(sink@),
{
    let mut out: Vec<u8> = Vec::new();
    let n = sink.entries.len();
    let mut i: usize = 0;
    while i < n
        invariant
            i <= n,
            n == sink@.len(),
            out@ == status_section(sink@.take(i as int)),
        decreases n - i,
    {
        push_status_line(&mut out, &sink.entries[i]);
        proof {
            assert(sink@.take(i + 1).drop_last() =~= sink@.take(i as int));
            assert(sink@.take(i + 1).last() == sink@[i as int]);
        }
        i = i + 1;
    }
    proof {
        assert(sink@.take(n as int) =~= sink@);
    }
    let mut i: usize = 0;
    while i < n
        invariant
            i <= n,
            n == sink@.len(),
            out@ == status_section(sink@) + latency_section(sink@.take(i as int)),
        decreases n - i,
    {
        push_latency_line(&mut out, &sink.entries[i]);
        proof {
            assert(sink@.take(i + 1).drop_last() =~= sink@.take(i as int));
            assert(sink@.take(i + 1).last() == sink@[i as int]);
            assert(out@ =~= status_section(sink@) + latency_section(sink@.take(i + 1)));
        }
        i = i + 1;
    }
    proof {
        assert(sink@.take(n as int) =~= sink@);
    }
    let mut i: usize = 0;
    while i < n
        invariant
            i <= n,
            n == sink@.len(),
            out@ == status_section(sink@) + latency_section(sink@) + checks_section(
                sink@.take(i as int),
            ),
        decreases n - i,
    {
        push_checks_lines(&mut out, &sink.entries[i]);
        proof {
            assert(sink@.take(i + 1).drop_last() =~= sink@.take(i as int));
            assert(sink@.take(i + 1).last() == sink@[i as int]);
            assert(out@ =~= status_section(sink@) + latency_section(sink@) + checks_section(
                sink@.take(i + 1),
            ));
        }
        i = i + 1;
    }
    proof {
        assert(sink@.take(n as int) =~= sink@);
        assert(out@ =~= spec_exposition(sink@));
    }
    out
}

/// Each recorded check grows exactly one of the two result counters by one
/// and overwrites both gauges for its label pair.  The counters are below
/// the machine limit for any realistic check count; at the limit they
/// saturate instead of wrapping.
pub proof fn lemma_check_counts_one(e0: MetricEntry, e1: MetricEntry, up: bool, latency_ms: u64)
    requires
        entry_recorded(e0, e1, up, latency_ms),
        e0.up_total < u64::MAX,
        e0.down_total < u64::MAX,
    ensures
        e1.up_total + e1.down_total == e0.up_total + e0.down_total + 1,
        up ==> e1.up_total == e0.up_total + 1 && e1.down_total == e0.down_total,
        !up ==> e1.down_total == e0.down_total + 1 && e1.up_total == e0.up_total,
        e1.status_up == up,
        e1.latency_ms == latency_ms,
{
}

} // verus!
