//! Label values of route metrics: the route label, the fixed set of methods
//! and the range of status codes that get a counter.

use vstd::prelude::*;
use vstd::string::*;

verus! {

/// HTTP methods that get their own duration histogram and outcome counters.
#[derive(Clone, Copy, PartialEq, Eq, Structural, Debug)]
pub enum MetricMethod {
    Put,
    Post,
    Options,
    Get,
    Patch,
    Head,
}

/// Number of methods in `MetricMethod`.
pub const METHOD_COUNT: usize = 6;

/// Lowest status code that gets a counter.
pub const FIRST_STATUS: u16 = 100;

/// Status codes from this one up get no counter.
pub const STATUS_END: u16 = 599;

/// Number of status codes that get a counter.
pub const STATUS_COUNT: usize = 499;

/// Number of outcome counter slots of a route: one per method and status code.
pub const STAT_SLOTS: usize = 2994;

impl MetricMethod {
    pub open spec fn spec_index(self) -> nat {
        match self {
            MetricMethod::Put => 0,
            MetricMethod::Post => 1,
            MetricMethod::Options => 2,
            MetricMethod::Get => 3,
            MetricMethod::Patch => 4,
            MetricMethod::Head => 5,
        }
    }

    pub open spec fn spec_name(self) -> Seq<char> {
        match self {
            MetricMethod::Put => "PUT"@,
            MetricMethod::Post => "POST"@,
            MetricMethod::Options => "OPTIONS"@,
            MetricMethod::Get => "GET"@,
            MetricMethod::Patch => "PATCH"@,
            MetricMethod::Head => "HEAD"@,
        }
    }

    /// Position of the method in the slot tables.
    pub fn index(&self) -> (r: usize)
        ensures
            r == self.spec_index(),
            r < METHOD_COUNT,
    {
        match self {
            MetricMethod::Put => 0,
            MetricMethod::Post => 1,
            MetricMethod::Options => 2,
            MetricMethod::Get => 3,
            MetricMethod::Patch => 4,
            MetricMethod::Head => 5,
        }
    }

    /// The method's name as it appears on the wire and in labels.
    pub fn as_str(&self) -> (r: &'static str)
        ensures
            r@ == self.spec_name(),
    {
        match self {
            MetricMethod::Put => "PUT",
            MetricMethod::Post => "POST",
            MetricMethod::Options => "OPTIONS",
            MetricMethod::Get => "GET",
            MetricMethod::Patch => "PATCH",
            MetricMethod::Head => "HEAD",
        }
    }

    /// The method named `name`, if it is one that gets metrics.
    pub fn from_name(name: &str) -> (r: Option<MetricMethod>)
        ensures
            r matches Some(m) ==> m.spec_name() == name@,
            r is None ==> forall|m: MetricMethod| m.spec_name() != name@,
    {
        let s = String::from_str(name);
        proof {
            reveal_strlit("PUT");
            reveal_strlit("POST");
            reveal_strlit("OPTIONS");
            reveal_strlit("GET");
            reveal_strlit("PATCH");
            reveal_strlit("HEAD");
        }
        if s == String::from_str("PUT") {
            Some(MetricMethod::Put)
        } else if s == String::from_str("POST") {
            Some(MetricMethod::Post)
        } else if s == String::from_str("OPTIONS") {
            Some(MetricMethod::Options)
        } else if s == String::from_str("GET") {
            Some(MetricMethod::Get)
        } else if s == String::from_str("PATCH") {
            Some(MetricMethod::Patch)
        } else if s == String::from_str("HEAD") {
            Some(MetricMethod::Head)
        } else {
            None
        }
    }
}

/// The method at position `i` of the slot tables.
pub open spec fn method_at(i: int) -> MetricMethod {
    if i == 0 {
        MetricMethod::Put
    } else if i == 1 {
        MetricMethod::Post
    } else if i == 2 {
        MetricMethod::Options
    } else if i == 3 {
        MetricMethod::Get
    } else if i == 4 {
        MetricMethod::Patch
    } else {
        MetricMethod::Head
    }
}

/// Method of outcome counter slot `k`.
pub open spec fn slot_method(k: int) -> MetricMethod {
    method_at(k / STATUS_COUNT as int)
}

/// Status code of outcome counter slot `k`.
pub open spec fn slot_status(k: int) -> u16 {
    (k % STATUS_COUNT as int + FIRST_STATUS) as u16
}

/// Slot `stat_slot_of(m, s)` stands for method `m` and status `s`.
pub proof fn lemma_stat_slot_inverse(m: MetricMethod, s: u16)
    requires
        stat_slot_of(m, s) is Some,
    ensures
        slot_method(stat_slot_of(m, s)->Some_0 as int) == m,
        slot_status(stat_slot_of(m, s)->Some_0 as int) == s,
{
    let i = m.spec_index() as int;
    let d = s - FIRST_STATUS;
    let k = i * 499 + d;
    assert(k / 499 == i && k % 499 == d) by (nonlinear_arith)
        requires
            0 <= d < 499,
            0 <= i < 6,
            k == i * 499 + d,
    ;
}

/// Distinct slots stand for distinct method and status pairs.
pub proof fn lemma_slots_distinct(j: int, k: int)
    requires
        0 <= j < STAT_SLOTS,
        0 <= k < STAT_SLOTS,
        j != k,
    ensures
        slot_method(j) != slot_method(k) || slot_status(j) != slot_status(k),
{
    if slot_method(j) == slot_method(k) && slot_status(j) == slot_status(k) {
        assert(j / 499 == k / 499);
        assert(j % 499 == k % 499);
        assert(j == k) by (nonlinear_arith)
            requires
                j / 499 == k / 499,
                j % 499 == k % 499,
                0 <= j,
                0 <= k,
        ;
    }
}

/// Slot of the outcome counter for `method` and `status`, when the status
/// code lies in the counted range.
pub open spec fn stat_slot_of(method: MetricMethod, status: u16) -> Option<nat> {
    if FIRST_STATUS <= status < STATUS_END {
        Some((method.spec_index() * STATUS_COUNT + (status - FIRST_STATUS)) as nat)
    } else {
        None
    }
}

/// Slot of the outcome counter for `method` and `status`.
pub fn stat_slot(method: MetricMethod, status: u16) -> (r: Option<usize>)
    ensures
        r matches Some(i) ==> stat_slot_of(method, status) == Some(i as nat) && i < STAT_SLOTS,
        r is None ==> stat_slot_of(method, status) is None,
{
    if FIRST_STATUS <= status && status < STATUS_END {
        let m = method.index();
        Some(m * STATUS_COUNT + (status - FIRST_STATUS) as usize)
    } else {
        None
    }
}

/// A route with its leading slashes removed.
pub open spec fn trim_leading_slashes(s: Seq<char>) -> Seq<char>
    decreases s.len(),
{
    if s.len() > 0 && s[0] == '/' {
        trim_leading_slashes(s.drop_first())
    } else {
        s
    }
}

/// Label text of a run of route characters: `/` becomes `_` and the `:` that
/// marks a path parameter is dropped.
pub open spec fn label_chars(s: Seq<char>) -> Seq<char>
    decreases s.len(),
{
    if s.len() == 0 {
        s
    } else {
        let rest = label_chars(s.drop_last());
        let c = s.last();
        if c == '/' {
            rest.push('_')
        } else if c == ':' {
            rest
        } else {
            rest.push(c)
        }
    }
}

/// The label under which a route's metrics are reported.
pub open spec fn route_label_of(route: Seq<char>) -> Seq<char> {
    label_chars(trim_leading_slashes(route))
}

/// Builds the metrics label of a route: `/rooms/:id` gives `rooms_id`.
pub fn route_label(route: &str) -> (r: String)
    ensures
        r@ == route_label_of(route@),
{
    let n = route.unicode_len();
    let mut i: usize = 0;
    assert(route@.subrange(0, n as int) =~= route@);
    while i < n && route.get_char(i) == '/'
        invariant
            i <= n,
            n == route@.len(),
            trim_leading_slashes(route@) == trim_leading_slashes(route@.subrange(i as int, n as int)),
        decreases n - i,
    {
        assert(route@.subrange(i as int, n as int).drop_first() =~= route@.subrange(i + 1, n as int));
        i = i + 1;
    }
    let start = i;
    let ghost rest = route@.subrange(start as int, n as int);
    assert(trim_leading_slashes(rest) == rest);
    let mut out = String::new();
    assert(rest.subrange(0, 0) =~= Seq::<char>::empty());
    while i < n
        invariant
            start <= i <= n,
            n == route@.len(),
            rest == route@.subrange(start as int, n as int),
            out@ == label_chars(rest.subrange(0, i - start)),
        decreases n - i,
    {
        let c = route.get_char(i);
        let ghost before = rest.subrange(0, i - start);
        let ghost next = rest.subrange(0, i + 1 - start);
        assert(next.drop_last() =~= before);
        assert(next.last() == c);
        assert(label_chars(next) == if c == '/' {
            label_chars(before).push('_')
        } else if c == ':' {
            label_chars(before)
        } else {
            label_chars(before).push(c)
        });
        if c == '/' {
            proof {
                reveal_strlit("_");
            }
            out.append("_");
        } else if c != ':' {
            out.append(route.substring_char(i, i + 1));
            assert(route@.subrange(i as int, i + 1) =~= seq![c]);
        }
        assert(out@ =~= label_chars(rest.subrange(0, i + 1 - start)));
        i = i + 1;
    }
    assert(rest.subrange(0, n - start) =~= rest);
    out
}

pub open spec fn digit_char(d: int) -> char {
    if d == 0 {
        '0'
    } else if d == 1 {
        '1'
    } else if d == 2 {
        '2'
    } else if d == 3 {
        '3'
    } else if d == 4 {
        '4'
    } else if d == 5 {
        '5'
    } else if d == 6 {
        '6'
    } else if d == 7 {
        '7'
    } else if d == 8 {
        '8'
    } else {
        '9'
    }
}

/// The `status_code` label of a three-digit status code: its decimal digits.
pub open spec fn status_text(status: u16) -> Seq<char> {
    seq![
        digit_char(status as int / 100),
        digit_char((status as int / 10) % 10),
        digit_char(status as int % 10),
    ]
}

fn push_digit(s: &mut String, d: u16)
    requires
        d < 10,
    ensures
        final(s)@ == old(s)@.push(digit_char(d as int)),
{
    proof {
        reveal_strlit("0");
        reveal_strlit("1");
        reveal_strlit("2");
        reveal_strlit("3");
        reveal_strlit("4");
        reveal_strlit("5");
        reveal_strlit("6");
        reveal_strlit("7");
        reveal_strlit("8");
        reveal_strlit("9");
    }
    let t = match d {
        0 => "0",
        1 => "1",
        2 => "2",
        3 => "3",
        4 => "4",
        5 => "5",
        6 => "6",
        7 => "7",
        8 => "8",
        _ => "9",
    };
    s.append(t);
    assert(final(s)@ =~= old(s)@.push(digit_char(d as int)));
}

/// Renders a three-digit status code for the `status_code` label.
pub fn status_label(status: u16) -> (r: String)
    requires
        100 <= status < 1000,
    ensures
        r@ == status_text(status),
{
    let mut s = String::new();
    push_digit(&mut s, status / 100);
    push_digit(&mut s, (status / 10) % 10);
    push_digit(&mut s, status % 10);
    assert(s@ =~= status_text(status));
    s
}

} // verus!
