//! The skb drop section, whose drop reason is named after the running
//! kernel's `enum skb_drop_reason`, read once and kept.
use std::collections::HashMap;
use vstd::prelude::*;

use crate::layout::{
    le_u32, lemma_u32_round_trip, parse_raw_section, read_u32, spec_parse, u32_bytes, DecodeError,
    RawLayout,
};

verus! {

broadcast use vstd::std_specs::hash::group_hash_axioms;

/// The digit character of `d`, for `d` below ten.
pub open spec fn digit_char(d: nat) -> char {
    if d == 0 {
        '0'
    } else if d == 1 {
        '1'
    } else if d == 2 {
        '2'
    } else if d == 3 {
        '3'
    } else if d == 4 {
        '4'
    } else if d == 5 {
        '5'
    } else if d == 6 {
        '6'
    } else if d == 7 {
        '7'
    } else if d == 8 {
        '8'
    } else {
        '9'
    }
}

/// The decimal form of `n`, without leading zeros.
pub open spec fn decimal(n: nat) -> Seq<char>
    decreases n,
{
    if n < 10 {
        seq![digit_char(n)]
    } else {
        decimal(n / 10).push(digit_char(n % 10))
    }
}

fn digit_str(d: u32) -> (r: &'static str)
    requires
        d < 10,
    ensures
        r@ == seq![digit_char(d as nat)],
{
    match d {
        0 => {
            proof {
                reveal_strlit("0");
            }
            "0"
        },
        1 => {
            proof {
                reveal_strlit("1");
            }
            "1"
        },
        2 => {
            proof {
                reveal_strlit("2");
            }
            "2"
        },
        3 => {
            proof {
                reveal_strlit("3");
            }
            "3"
        },
        4 => {
            proof {
                reveal_strlit("4");
            }
            "4"
        },
        5 => {
            proof {
                reveal_strlit("5");
            }
            "5"
        },
        6 => {
            proof {
                reveal_strlit("6");
            }
            "6"
        },
        7 => {
            proof {
                reveal_strlit("7");
            }
            "7"
        },
        8 => {
            proof {
                reveal_strlit("8");
            }
            "8"
        },
        _ => {
            proof {
                reveal_strlit("9");
            }
            "9"
        },
    }
}

fn push_decimal(s: &mut String, n: u32)
    ensures
        final(s)@ == old(s)@ + decimal(n as nat),
    decreases n,
{
    if n >= 10 {
        push_decimal(s, n / 10);
    }
    s.append(digit_str(n % 10));
    proof {
        if n >= 10 {
            assert(decimal(n as nat) == decimal((n / 10) as nat).push(digit_char((n % 10) as nat)));
        }
        assert(final(s)@ =~= old(s)@ + decimal(n as nat));
    }
}

/// The decimal form of `n`.
pub fn decimal_string(n: u32) -> (r: String)
    ensures
        r@ == decimal(n as nat),
{
    let mut s = String::new();
    push_decimal(&mut s, n);
    proof {
        assert(s@ =~= decimal(n as nat));
    }
    s
}

/// `s` with every leading occurrence of `p` removed, one after the other.
pub open spec fn trim_all(s: Seq<char>, p: Seq<char>) -> Seq<char>
    decreases s.len(),
{
    if p.len() > 0 && p.len() <= s.len() && s.subrange(0, p.len() as int) == p {
        trim_all(s.subrange(p.len() as int, s.len() as int), p)
    } else {
        s
    }
}

/// Relies on str::trim_start_matches with a string pattern: the prefixes
/// that match `prefix` are removed repeatedly from the start.
#[verifier::external_body]
fn trim_start_all(s: &str, prefix: &str) -> (r: String)
    requires
        prefix@.len() > 0,
    ensures
        r@ == trim_all(s@, prefix@),
{
    s.trim_start_matches(prefix).to_string()
}

/// The short name of a member of `enum skb_drop_reason`: its `SKB_` prefixes,
/// then its `DROP_REASON_` prefixes, removed.
pub open spec fn stripped_name(n: Seq<char>) -> Seq<char> {
    trim_all(trim_all(n, "SKB_"@), "DROP_REASON_"@)
}

/// Shortens a member name of `enum skb_drop_reason`.
pub fn strip_reason_prefixes(name: &str) -> (r: String)
    ensures
        r@ == stripped_name(name@),
{
    proof {
        reveal_strlit("SKB_");
        reveal_strlit("DROP_REASON_");
    }
    let a = trim_start_all(name, "SKB_");
    trim_start_all(a.as_str(), "DROP_REASON_")
}

/// A member of a kernel enumeration, as the type metadata describes it.
#[derive(Debug, Clone, PartialEq, Eq)]
pub struct EnumEntry {
    pub name: String,
    pub value: i32,
}

/// The drop reason table built from `ms` in order: the members with a
/// negative value are left out, a later member with the same value replaces
/// an earlier one, and each name is stored shortened.
pub open spec fn reasons_table(ms: Seq<EnumEntry>) -> Map<u32, Seq<char>>
    decreases ms.len(),
{
    if ms.len() == 0 {
        Map::empty()
    } else {
        let t = reasons_table(ms.drop_last());
        let m = ms.last();
        if m.value < 0 {
            t
        } else {
            t.insert(m.value as u32, stripped_name(m.name@))
        }
    }
}

/// A table of strings seen as a table of character sequences.
pub open spec fn table_view(m: Map<u32, String>) -> Map<u32, Seq<char>> {
    m.map_values(|s: String| s@)
}

/// Builds the drop reason table from the members of the enumeration.
pub fn build_reasons(members: &Vec<EnumEntry>) -> (r: HashMap<u32, String>)
    ensures
        table_view(r@) == reasons_table(members@),
{
    let mut reasons: HashMap<u32, String> = HashMap::new();
    let mut i: usize = 0;
    while i < members.len()
        invariant
            i <= members@.len(),
            table_view(reasons@) == reasons_table(members@.subrange(0, i as int)),
        decreases members@.len() - i,
    {
        let m = &members[i];
        assert(members@.subrange(0, i + 1).drop_last() =~= members@.subrange(0, i as int));
        if m.value >= 0 {
            let name = strip_reason_prefixes(m.name.as_str());
            let ghost before = reasons@;
            reasons.insert(m.value as u32, name);
            assert(table_view(reasons@) =~= table_view(before).insert(m.value as u32, name@));
        }
        i += 1;
    }
    assert(members@.subrange(0, members@.len() as int) =~= members@);
    reasons
}

/// The skb drop section as the probe writes it: 4 bytes.
#[derive(Debug, Clone, Copy, PartialEq, Eq, Structural)]
pub struct BpfSkbDropEvent {
    pub drop_reason: u32,
}

impl RawLayout for BpfSkbDropEvent {
    open spec fn spec_size() -> nat {
        4
    }

    open spec fn spec_decode(b: Seq<u8>) -> BpfSkbDropEvent {
        BpfSkbDropEvent { drop_reason: le_u32(b, 0) }
    }

    open spec fn spec_encode(self) -> Seq<u8> {
        u32_bytes(self.drop_reason)
    }

    fn size() -> (r: usize) {
        4
    }

    fn decode_exact(b: &[u8]) -> (r: BpfSkbDropEvent) {
        BpfSkbDropEvent { drop_reason: read_u32(b, 0) }
    }

    proof fn lemma_round_trip(self) {
        let e = self.spec_encode();
        assert(e.subrange(0, 4) =~= e);
        lemma_u32_round_trip(self.drop_reason, e, 0);
    }
}

/// The decoded skb drop section.
#[derive(Debug, Clone, PartialEq, Eq)]
pub struct SkbDropEvent {
    /// Why the packet was freed or dropped: the short name of the kernel's
    /// reason when it is known, its decimal value otherwise.
    pub drop_reason: String,
}

impl SkbDropEvent {
    /// How the section reads in an event's text form.
    pub fn event_fmt(&self) -> (r: String)
        ensures
            r@ == "drop ("@ + self.drop_reason@ + ")"@,
    {
        let mut s = "drop (".to_owned();
        s.append(self.drop_reason.as_str());
        s.append(")");
        s
    }
}

/// The table that a build gives: that of the members when the enumeration
/// was found, an empty one when it was not.
pub open spec fn built_table(members: Option<Vec<EnumEntry>>) -> Map<u32, Seq<char>> {
    match members {
        Some(ms) => reasons_table(ms@),
        None => Map::empty(),
    }
}

/// The text of drop reason `code`: its name in the table when the table holds
/// it, its decimal value otherwise, or when no table was built.
pub open spec fn reason_text(reasons: Option<Map<u32, Seq<char>>>, code: u32) -> Seq<char> {
    match reasons {
        Some(t) => if t.contains_key(code) {
            t[code]
        } else {
            decimal(code as nat)
        },
        None => decimal(code as nat),
    }
}

/// What decoding an skb drop section against `reasons` gives.
pub open spec fn spec_drop_reason(reasons: Option<Map<u32, Seq<char>>>, raw: Seq<u8>) -> Result<
    Seq<char>,
    DecodeError,
> {
    match spec_parse::<BpfSkbDropEvent>(raw) {
        Ok(r) => Ok(reason_text(reasons, r.drop_reason)),
        Err(e) => Err(e),
    }
}

/// Builds skb drop sections. It holds the drop reason table, built at first
/// use and never again: absent before, empty when the kernel did not
/// describe its reasons.
#[derive(Debug, Default)]
pub struct SkbDropEventFactory {
    reasons: Option<HashMap<u32, String>>,
}

impl SkbDropEventFactory {
    /// The drop reason table, if it was built.
    pub closed spec fn spec_reasons(&self) -> Option<Map<u32, Seq<char>>> {
        match self.reasons {
            Some(t) => Some(table_view(t@)),
            None => None,
        }
    }

    /// A factory whose table is not built yet.
    pub fn new() -> (r: SkbDropEventFactory)
        ensures
            r.spec_reasons() is None,
    {
        SkbDropEventFactory { reasons: None }
    }

    /// Whether the drop reason table was built.
    pub fn reasons_built(&self) -> (r: bool)
        ensures
            r == self.spec_reasons() is Some,
    {
        self.reasons.is_some()
    }

    /// Builds the drop reason table from the members of
    /// `enum skb_drop_reason`, or an empty one when `members` is `None`
    /// (the kernel did not describe the enumeration).
    pub fn parse_drop_reasons(&mut self, members: Option<Vec<EnumEntry>>)
        ensures
            final(self).spec_reasons() == Some(built_table(members)),
    {
        let reasons = match &members {
            Some(ms) => build_reasons(ms),
            None => {
                let t: HashMap<u32, String> = HashMap::new();
                assert(table_view(t@) =~= Map::empty());
                t
            },
        };
        self.reasons = Some(reasons);
    }

    /// The text of drop reason `code` against the current table.
    pub fn drop_reason_name(&self, code: u32) -> (r: String)
        ensures
            r@ == reason_text(self.spec_reasons(), code),
    {
        match &self.reasons {
            Some(t) => match t.get(&code) {
                Some(name) => name.clone(),
                None => decimal_string(code),
            },
            None => decimal_string(code),
        }
    }

    /// Decodes an skb drop section. A buffer of the right size builds the
    /// table first if it was never built, with the members that
    /// `fetch_members` returns; a built table is kept as it is.
    pub fn from_raw<F: FnOnce() -> Option<Vec<EnumEntry>>>(
        &mut self,
        raw_section: &[u8],
        fetch_members: F,
    ) -> (r: Result<SkbDropEvent, DecodeError>)
        requires
            fetch_members.requires(()),
        ensures
            spec_parse::<BpfSkbDropEvent>(raw_section@) is Err ==> *final(self) == *old(self),
            spec_parse::<BpfSkbDropEvent>(raw_section@) is Ok ==> final(self).spec_reasons() is Some,
            old(self).spec_reasons() is Some ==> *final(self) == *old(self),
            old(self).spec_reasons() is None && spec_parse::<BpfSkbDropEvent>(raw_section@) is Ok
                ==> exists|ms: Option<Vec<EnumEntry>>|
                #[trigger] fetch_members.ensures((), ms) && final(self).spec_reasons() == Some(
                    built_table(ms),
                ),
            match spec_drop_reason(final(self).spec_reasons(), raw_section@) {
                Ok(text) => r is Ok && r->Ok_0.drop_reason@ == text,
                Err(e) => r == Err::<SkbDropEvent, DecodeError>(e),
            },
    {
        let raw = match parse_raw_section::<BpfSkbDropEvent>(raw_section) {
            Ok(raw) => raw,
            Err(e) => return Err(e),
        };
        if self.reasons.is_none() {
            let members = fetch_members();
            self.parse_drop_reasons(members);
        }
        let drop_reason = self.drop_reason_name(raw.drop_reason);
        Ok(SkbDropEvent { drop_reason })
    }
}

/// Whether `s` starts with `p`.
pub open spec fn has_prefix(s: Seq<char>, p: Seq<char>) -> bool {
    p.len() <= s.len() && s.subrange(0, p.len() as int) == p
}

/// A name that starts with neither prefix is stored unchanged; one made of
/// `SKB_` or `DROP_REASON_` followed by such a name is stored as that name.
pub proof fn lemma_stripped_name(rest: Seq<char>)
    requires
        !has_prefix(rest, "SKB_"@),
        !has_prefix(rest, "DROP_REASON_"@),
    ensures
        stripped_name(rest) == rest,
        stripped_name("SKB_"@ + rest) == rest,
        stripped_name("DROP_REASON_"@ + rest) == rest,
        stripped_name("SKB_DROP_REASON_"@ + rest) == rest,
{
    reveal_strlit("SKB_");
    reveal_strlit("DROP_REASON_");
    reveal_strlit("SKB_DROP_REASON_");
    let skb = "SKB_"@;
    let dr = "DROP_REASON_"@;
    assert(trim_all(rest, skb) == rest);
    assert(trim_all(rest, dr) == rest);
    let a = skb + rest;
    assert(a.subrange(0, 4) =~= skb);
    assert(a.subrange(4, a.len() as int) =~= rest);
    assert(trim_all(a, skb) == trim_all(rest, skb));
    let b = dr + rest;
    assert(b.subrange(0, 12) =~= dr);
    assert(b.subrange(12, b.len() as int) =~= rest);
    assert(!has_prefix(b, skb)) by {
        assert(b.subrange(0, 4)[0] == 'D');
    }
    assert(trim_all(b, skb) == b);
    assert(trim_all(b, dr) == trim_all(rest, dr));
    let c = "SKB_DROP_REASON_"@;
    let d = c + rest;
    assert(d.subrange(0, 4) =~= skb);
    assert(d.subrange(4, d.len() as int) =~= b);
    assert(trim_all(d, skb) == trim_all(b, skb));
}

/// Every key of a built table is the value of a member whose value is not
/// negative: negative members never enter the table.
pub proof fn lemma_table_keys_from_nonnegative(ms: Seq<EnumEntry>, k: u32)
    requires
        reasons_table(ms).contains_key(k),
    ensures
        exists|i: int| 0 <= i < ms.len() && ms[i].value >= 0 && #[trigger] ms[i].value as u32 == k,
        k < 0x8000_0000,
    decreases ms.len(),
{
    let m = ms.last();
    let init = ms.drop_last();
    if m.value >= 0 && m.value as u32 == k {
        assert(ms[ms.len() - 1].value as u32 == k);
    } else {
        lemma_table_keys_from_nonnegative(init, k);
        let i = choose|i: int| 0 <= i < init.len() && init[i].value >= 0 && #[trigger] init[i].value as u32 == k;
        assert(ms[i] == init[i]);
    }
}

/// A member with a value that is not negative, and that no later member
/// repeats, is in the built table under its value, with its name shortened.
pub proof fn lemma_member_in_table(ms: Seq<EnumEntry>, i: int)
    requires
        0 <= i < ms.len(),
        ms[i].value >= 0,
        forall|j: int| i < j < ms.len() ==> #[trigger] ms[j].value != ms[i].value,
    ensures
        reasons_table(ms).contains_key(ms[i].value as u32),
        reasons_table(ms)[ms[i].value as u32] == stripped_name(ms[i].name@),
    decreases ms.len(),
{
    if i < ms.len() - 1 {
        let init = ms.drop_last();
        assert(init[i] == ms[i]);
        assert forall|j: int| i < j < init.len() implies #[trigger] init[j].value != init[i].value by {
            assert(init[j] == ms[j]);
        }
        lemma_member_in_table(init, i);
        let m = ms.last();
        assert(ms[ms.len() - 1].value != ms[i].value);
        if m.value >= 0 {
            assert(m.value as u32 != ms[i].value as u32);
        }
    }
}

/// When the kernel does not describe its drop reasons, the table is empty
/// and every code reads as its decimal value.
pub proof fn lemma_unavailable_reads_decimal(code: u32)
    ensures
        reason_text(Some(built_table(None)), code) == decimal(code as nat),
{
}

} // verus!
