//! The network listing: records of the tool's `networks --json` output, and
//! the verified parser that reads a listing into them. A record holds the four
//! fields of one known network; a listing is a JSON array of such records,
//! read in input order. Members may come in any order and unknown members are
//! skipped; a missing or repeated known member, a wrongly typed value, or
//! trailing content is a parse failure.

use vstd::prelude::*;
use vstd::string::StrSliceExecFns;

use crate::json::{
    parse_bool_at, parse_string_at, skip_value_at, skip_ws, sp_parse_bool, sp_parse_string,
    sp_skip_value, sp_skip_ws,
};
use crate::text::str_eq;

verus! {

/// One known network as the tool reports it.
#[derive(Clone, Debug)]
pub struct NetworkPrinter {
    pub current: bool,
    pub name: String,
    pub genesis_key: String,
    pub network_info: String,
}

/// The mathematical value of a record.
pub struct NetworkPrinterView {
    pub current: bool,
    pub name: Seq<char>,
    pub genesis_key: Seq<char>,
    pub network_info: Seq<char>,
}

impl View for NetworkPrinter {
    type V = NetworkPrinterView;

    open spec fn view(&self) -> NetworkPrinterView {
        NetworkPrinterView {
            current: self.current,
            name: self.name@,
            genesis_key: self.genesis_key@,
            network_info: self.network_info@,
        }
    }
}

impl DeepView for NetworkPrinter {
    type V = NetworkPrinterView;

    open spec fn deep_view(&self) -> NetworkPrinterView {
        self.view()
    }
}

/// The listing could not be read as a sequence of network records.
#[derive(Clone, Copy, Debug, PartialEq, Eq, Structural)]
pub struct ParseError;

pub open spec fn key_current() -> Seq<char> {
    seq!['c', 'u', 'r', 'r', 'e', 'n', 't']
}

pub open spec fn key_name() -> Seq<char> {
    seq!['n', 'a', 'm', 'e']
}

pub open spec fn key_genesis() -> Seq<char> {
    seq!['g', 'e', 'n', 'e', 's', 'i', 's', '_', 'k', 'e', 'y']
}

pub open spec fn key_info() -> Seq<char> {
    seq!['n', 'e', 't', 'w', 'o', 'r', 'k', '_', 'i', 'n', 'f', 'o']
}

/// The content of an optional owned string.
pub open spec fn opt_str_view(o: Option<String>) -> Option<Seq<char>> {
    match o {
        Some(s) => Some(s@),
        None => None,
    }
}

/// One member of a record object, starting at the key's quote at `m`, given
/// which fields were already seen: the updated fields and the index after the
/// member's value. A known key that was already seen, or a known key with a
/// wrongly typed value, fails; an unknown key has its value skipped.
pub open spec fn sp_record_member(
    s: Seq<char>,
    m: int,
    cur: Option<bool>,
    name: Option<Seq<char>>,
    gk: Option<Seq<char>>,
    ni: Option<Seq<char>>,
) -> Option<((Option<bool>, Option<Seq<char>>, Option<Seq<char>>, Option<Seq<char>>), int)> {
    match sp_parse_string(s, m) {
        None => None,
        Some((key, a)) => {
            let b = sp_skip_ws(s, a);
            if !(0 <= b < s.len() && s[b] == ':') {
                None
            } else {
                let v = sp_skip_ws(s, b + 1);
                if key == key_current() {
                    if cur is Some {
                        None
                    } else {
                        match sp_parse_bool(s, v) {
                            None => None,
                            Some((bv, k)) => Some(((Some(bv), name, gk, ni), k)),
                        }
                    }
                } else if key == key_name() {
                    if name is Some {
                        None
                    } else {
                        match sp_parse_string(s, v) {
                            None => None,
                            Some((sv, k)) => Some(((cur, Some(sv), gk, ni), k)),
                        }
                    }
                } else if key == key_genesis() {
                    if gk is Some {
                        None
                    } else {
                        match sp_parse_string(s, v) {
                            None => None,
                            Some((sv, k)) => Some(((cur, name, Some(sv), ni), k)),
                        }
                    }
                } else if key == key_info() {
                    if ni is Some {
                        None
                    } else {
                        match sp_parse_string(s, v) {
                            None => None,
                            Some((sv, k)) => Some(((cur, name, gk, Some(sv)), k)),
                        }
                    }
                } else {
                    match sp_skip_value(s, v) {
                        None => None,
                        Some(k) => Some(((cur, name, gk, ni), k)),
                    }
                }
            }
        },
    }
}

/// The members of a record object from `i` just after `{` (when `first`) or
/// just after a member: the finished record, which must have all four fields,
/// and the index after the closing `}`.
pub open spec fn sp_record_fields(
    s: Seq<char>,
    i: int,
    first: bool,
    cur: Option<bool>,
    name: Option<Seq<char>>,
    gk: Option<Seq<char>>,
    ni: Option<Seq<char>>,
) -> Option<(NetworkPrinterView, int)>
    decreases s.len() - i,
{
    let j = sp_skip_ws(s, i);
    if !(i <= j < s.len()) {
        None
    } else if s[j] == '}' {
        match (cur, name, gk, ni) {
            (Some(c), Some(n), Some(g), Some(f)) => Some(
                (NetworkPrinterView { current: c, name: n, genesis_key: g, network_info: f }, j + 1),
            ),
            _ => None,
        }
    } else {
        let m = if first {
            j
        } else if s[j] == ',' {
            sp_skip_ws(s, j + 1)
        } else {
            (s.len() + 1) as int
        };
        if !(j <= m < s.len()) {
            None
        } else {
            match sp_record_member(s, m, cur, name, gk, ni) {
                None => None,
                Some((upd, k)) => {
                    if m < k <= s.len() {
                        sp_record_fields(s, k, false, upd.0, upd.1, upd.2, upd.3)
                    } else {
                        None
                    }
                },
            }
        }
    }
}

/// One record object starting at `i`.
pub open spec fn sp_parse_record(s: Seq<char>, i: int) -> Option<(NetworkPrinterView, int)> {
    if 0 <= i < s.len() && s[i] == '{' {
        sp_record_fields(s, i + 1, true, None, None, None, None)
    } else {
        None
    }
}

/// The elements of the listing array from `i` just after `[` (when `first`)
/// or just after a record, with the records read so far in `acc`, in input
/// order: all records and the index after the closing `]`.
pub open spec fn sp_records(
    s: Seq<char>,
    i: int,
    first: bool,
    acc: Seq<NetworkPrinterView>,
) -> Option<(Seq<NetworkPrinterView>, int)>
    decreases s.len() - i,
{
    let j = sp_skip_ws(s, i);
    if !(i <= j < s.len()) {
        None
    } else if s[j] == ']' {
        Some((acc, j + 1))
    } else {
        let m = if first {
            j
        } else if s[j] == ',' {
            sp_skip_ws(s, j + 1)
        } else {
            (s.len() + 1) as int
        };
        if !(j <= m < s.len()) {
            None
        } else {
            match sp_parse_record(s, m) {
                None => None,
                Some((rec, k)) => {
                    if m < k <= s.len() {
                        sp_records(s, k, false, acc.push(rec))
                    } else {
                        None
                    }
                },
            }
        }
    }
}

/// Records already read stay in place, in order, whatever the rest of the
/// array holds: a successful scan only ever appends to them. So the parsed
/// sequence lists the array's records in input order, never reordered.
pub proof fn lemma_records_extend(s: Seq<char>, i: int, first: bool, acc: Seq<NetworkPrinterView>)
    requires
        sp_records(s, i, first, acc) is Some,
    ensures
        ({
            let out = (sp_records(s, i, first, acc)->0).0;
            out.len() >= acc.len() && out.subrange(0, acc.len() as int) == acc
        }),
    decreases s.len() - i,
{
    let out = (sp_records(s, i, first, acc)->0).0;
    let j = sp_skip_ws(s, i);
    if i <= j < s.len() && s[j] != ']' {
        let m = if first {
            j
        } else if s[j] == ',' {
            sp_skip_ws(s, j + 1)
        } else {
            (s.len() + 1) as int
        };
        if j <= m < s.len() {
            match sp_parse_record(s, m) {
                Some((rec, k)) => {
                    if m < k <= s.len() {
                        lemma_records_extend(s, k, false, acc.push(rec));
                        let out2 = (sp_records(s, k, false, acc.push(rec))->0).0;
                        assert(acc.push(rec).subrange(0, acc.len() as int) =~= acc);
                        assert(out.subrange(0, acc.len() as int) =~= out2.subrange(
                            0,
                            acc.push(rec).len() as int,
                        ).subrange(0, acc.len() as int));
                    }
                },
                None => {},
            }
        }
    } else {
        assert(out.subrange(0, acc.len() as int) =~= acc);
    }
}

/// The whole listing: an array of records with nothing but whitespace around
/// it, in input order.
pub open spec fn sp_parse_networks(s: Seq<char>) -> Option<Seq<NetworkPrinterView>> {
    let i = sp_skip_ws(s, 0);
    if !(0 <= i < s.len() && s[i] == '[') {
        None
    } else {
        match sp_records(s, i + 1, true, seq![]) {
            None => None,
            Some((recs, k)) => {
                if sp_skip_ws(s, k) == s.len() {
                    Some(recs)
                } else {
                    None
                }
            },
        }
    }
}

/// See `sp_record_member`.
fn record_member_at(
    s: &str,
    m: usize,
    cur: Option<bool>,
    name: Option<String>,
    gk: Option<String>,
    ni: Option<String>,
) -> (r: Option<((Option<bool>, Option<String>, Option<String>, Option<String>), usize)>)
    ensures
        r matches Some(p) ==> (sp_record_member(
            s@,
            m as int,
            cur,
            opt_str_view(name),
            opt_str_view(gk),
            opt_str_view(ni),
        ) matches Some(q) && q.0.0 == p.0.0 && q.0.1 == opt_str_view(p.0.1) && q.0.2
            == opt_str_view(p.0.2) && q.0.3 == opt_str_view(p.0.3) && q.1 == p.1 as int && m < p.1
            <= s@.len()),
        r is None ==> sp_record_member(
            s@,
            m as int,
            cur,
            opt_str_view(name),
            opt_str_view(gk),
            opt_str_view(ni),
        ) is None,
{
    match parse_string_at(s, m) {
        None => None,
        Some(kp) => {
            let (key, a) = kp;
            let n = s.unicode_len();
            let b = skip_ws(s, a);
            if !(b < n && s.get_char(b) == ':') {
                return None;
            }
            let v = skip_ws(s, b + 1);
            proof {
                reveal_strlit("current");
                reveal_strlit("name");
                reveal_strlit("genesis_key");
                reveal_strlit("network_info");
                assert("current"@ =~= key_current());
                assert("name"@ =~= key_name());
                assert("genesis_key"@ =~= key_genesis());
                assert("network_info"@ =~= key_info());
            }
            if str_eq(key.as_str(), "current") {
                if cur.is_some() {
                    return None;
                }
                match parse_bool_at(s, v) {
                    None => None,
                    Some(bp) => Some(((Some(bp.0), name, gk, ni), bp.1)),
                }
            } else if str_eq(key.as_str(), "name") {
                if name.is_some() {
                    return None;
                }
                match parse_string_at(s, v) {
                    None => None,
                    Some(sp) => Some(((cur, Some(sp.0), gk, ni), sp.1)),
                }
            } else if str_eq(key.as_str(), "genesis_key") {
                if gk.is_some() {
                    return None;
                }
                match parse_string_at(s, v) {
                    None => None,
                    Some(sp) => Some(((cur, name, Some(sp.0), ni), sp.1)),
                }
            } else if str_eq(key.as_str(), "network_info") {
                if ni.is_some() {
                    return None;
                }
                match parse_string_at(s, v) {
                    None => None,
                    Some(sp) => Some(((cur, name, gk, Some(sp.0)), sp.1)),
                }
            } else {
                match skip_value_at(s, v) {
                    None => None,
                    Some(k) => Some(((cur, name, gk, ni), k)),
                }
            }
        },
    }
}

/// See `sp_record_fields`.
fn record_fields_at(
    s: &str,
    i: usize,
    first: bool,
    cur: Option<bool>,
    name: Option<String>,
    gk: Option<String>,
    ni: Option<String>,
) -> (r: Option<(NetworkPrinter, usize)>)
    requires
        i as int <= s@.len(),
    ensures
        r matches Some(p) ==> (sp_record_fields(
            s@,
            i as int,
            first,
            cur,
            opt_str_view(name),
            opt_str_view(gk),
            opt_str_view(ni),
        ) matches Some(q) && q.0 == p.0@ && q.1 == p.1 as int && i < p.1 <= s@.len()),
        r is None ==> sp_record_fields(
            s@,
            i as int,
            first,
            cur,
            opt_str_view(name),
            opt_str_view(gk),
            opt_str_view(ni),
        ) is None,
    decreases s@.len() - i,
{
    let n = s.unicode_len();
    let j = skip_ws(s, i);
    if !(j < n) {
        return None;
    }
    if s.get_char(j) == '}' {
        return match (cur, name, gk, ni) {
            (Some(c), Some(nm), Some(g), Some(f)) => Some(
                (NetworkPrinter { current: c, name: nm, genesis_key: g, network_info: f }, j + 1),
            ),
            _ => None,
        };
    }
    let m: usize;
    if first {
        m = j;
    } else if s.get_char(j) == ',' {
        m = skip_ws(s, j + 1);
    } else {
        return None;
    }
    if !(m < n) {
        return None;
    }
    match record_member_at(s, m, cur, name, gk, ni) {
        None => None,
        Some(p) => {
            let (upd, k) = p;
            if m < k && k <= n {
                record_fields_at(s, k, false, upd.0, upd.1, upd.2, upd.3)
            } else {
                None
            }
        },
    }
}

/// See `sp_parse_record`.
fn record_at(s: &str, i: usize) -> (r: Option<(NetworkPrinter, usize)>)
    ensures
        r matches Some(p) ==> (sp_parse_record(s@, i as int) matches Some(q) && q.0 == p.0@ && q.1
            == p.1 as int && i < p.1 <= s@.len()),
        r is None ==> sp_parse_record(s@, i as int) is None,
{
    let n = s.unicode_len();
    if !(i < n && s.get_char(i) == '{') {
        return None;
    }
    record_fields_at(s, i + 1, true, None, None, None, None)
}

/// See `sp_records`.
fn records_at(s: &str, i: usize, first: bool, acc: Vec<NetworkPrinter>) -> (r: Option<
    (Vec<NetworkPrinter>, usize),
>)
    requires
        i as int <= s@.len(),
    ensures
        r matches Some(p) ==> (sp_records(s@, i as int, first, acc.deep_view()) matches Some(q)
            && q.0 == p.0.deep_view() && q.1 == p.1 as int && i < p.1 <= s@.len()),
        r is None ==> sp_records(s@, i as int, first, acc.deep_view()) is None,
    decreases s@.len() - i,
{
    let n = s.unicode_len();
    let j = skip_ws(s, i);
    if !(j < n) {
        return None;
    }
    if s.get_char(j) == ']' {
        return Some((acc, j + 1));
    }
    let m: usize;
    if first {
        m = j;
    } else if s.get_char(j) == ',' {
        m = skip_ws(s, j + 1);
    } else {
        return None;
    }
    if !(m < n) {
        return None;
    }
    match record_at(s, m) {
        None => None,
        Some(p) => {
            let (rec, k) = p;
            if m < k && k <= n {
                let ghost acc0 = acc.deep_view();
                let ghost recv = rec@;
                let mut acc2 = acc;
                acc2.push(rec);
                proof {
                    assert(acc2.deep_view() =~= acc0.push(recv));
                }
                records_at(s, k, false, acc2)
            } else {
                None
            }
        },
    }
}

/// Parse the tool's JSON network listing: exactly the records of the array,
/// in input order, or a failure on anything the grammar refuses.
pub fn parse_networks(s: &str) -> (r: Result<Vec<NetworkPrinter>, ParseError>)
    ensures
        r is Ok <==> sp_parse_networks(s@) is Some,
        r matches Ok(v) ==> sp_parse_networks(s@) == Some(v.deep_view()),
{
    let n = s.unicode_len();
    let i = skip_ws(s, 0);
    if !(i < n && s.get_char(i) == '[') {
        return Err(ParseError);
    }
    let empty: Vec<NetworkPrinter> = Vec::new();
    proof {
        assert(empty.deep_view() =~= Seq::<NetworkPrinterView>::empty());
    }
    match records_at(s, i + 1, true, empty) {
        None => Err(ParseError),
        Some(p) => {
            let (recs, k) = p;
            if skip_ws(s, k) == n {
                Ok(recs)
            } else {
                Err(ParseError)
            }
        },
    }
}

/// The name of the current network in a listing: the name of the last record
/// marked current, a later mark overwriting an earlier one.
pub open spec fn sp_current_name(nets: Seq<NetworkPrinterView>) -> Option<Seq<char>>
    decreases nets.len(),
{
    if nets.len() == 0 {
        None
    } else if nets.last().current {
        Some(nets.last().name)
    } else {
        sp_current_name(nets.drop_last())
    }
}

/// See `sp_current_name`: the network to start a node on, if any is current.
pub fn current_network_name(networks: &Vec<NetworkPrinter>) -> (r: Option<String>)
    ensures
        opt_str_view(r) == sp_current_name(networks.deep_view()),
{
    let mut idx = networks.len();
    proof {
        assert(networks.deep_view().subrange(0, idx as int) =~= networks.deep_view());
    }
    while idx > 0
        invariant
            idx <= networks.len(),
            sp_current_name(networks.deep_view()) == sp_current_name(
                networks.deep_view().subrange(0, idx as int),
            ),
        decreases idx,
    {
        idx = idx - 1;
        let ghost pre = networks.deep_view().subrange(0, idx as int + 1);
        proof {
            assert(pre.last() == networks.deep_view()[idx as int]);
            assert(pre.drop_last() =~= networks.deep_view().subrange(0, idx as int));
        }
        if networks[idx].current {
            return Some(networks[idx].name.clone());
        }
    }
    proof {
        assert(networks.deep_view().subrange(0, 0).len() == 0);
    }
    None
}

} // verus!
