//! Module ids: the unique key identifying a module's compiled code within
//! its chunk. An id is either numeric or a string; it is rendered into the
//! wire format as a JSON number or string, and a textual id can be parsed
//! back under the same grammar.

use vstd::prelude::*;
use vstd::string::StrSliceExecFns;

use crate::json::{json_string, push_json_string};
use crate::text::{dec_digits, push_char, push_u64_dec, str_to_string};

verus! {

/// The key identifying a module's compiled code within a chunk.
#[derive(Debug)]
pub enum ModuleId {
    Num(u64),
    Str(String),
}

/// The mathematical value of a [`ModuleId`].
pub enum ModuleIdView {
    Num(u64),
    Str(Seq<char>),
}

impl View for ModuleId {
    type V = ModuleIdView;

    open spec fn view(&self) -> ModuleIdView {
        match self {
            ModuleId::Num(n) => ModuleIdView::Num(*n),
            ModuleId::Str(s) => ModuleIdView::Str(s@),
        }
    }
}

impl DeepView for ModuleId {
    type V = ModuleIdView;

    open spec fn deep_view(&self) -> ModuleIdView {
        self.view()
    }
}

/// How a module id appears in the wire format: a JSON number for numeric
/// ids, a JSON string for textual ids.
pub open spec fn module_id_json(v: ModuleIdView) -> Seq<char> {
    match v {
        ModuleIdView::Num(n) => dec_digits(n as nat),
        ModuleIdView::Str(s) => json_string(s),
    }
}

/// The comma-separated items of a JSON array of module ids.
pub open spec fn module_id_array_items(ids: Seq<ModuleIdView>) -> Seq<char>
    decreases ids.len(),
{
    if ids.len() == 0 {
        Seq::empty()
    } else if ids.len() == 1 {
        module_id_json(ids[0])
    } else {
        module_id_array_items(ids.drop_last()) + seq![','] + module_id_json(ids.last())
    }
}

/// A JSON array of module ids.
pub open spec fn module_id_array_json(ids: Seq<ModuleIdView>) -> Seq<char> {
    seq!['['] + module_id_array_items(ids) + seq![']']
}

impl ModuleId {
    /// Duplicates the id, preserving its value.
    pub fn duplicate(&self) -> (r: ModuleId)
        ensures
            r@ == self@,
    {
        match self {
            ModuleId::Num(n) => ModuleId::Num(*n),
            ModuleId::Str(s) => ModuleId::Str(s.clone()),
        }
    }

    /// Compares two ids by value.
    pub fn same_id(&self, other: &ModuleId) -> (r: bool)
        ensures
            r == (self@ == other@),
    {
        match (self, other) {
            (ModuleId::Num(a), ModuleId::Num(b)) => {
                let r = *a == *b;
                assert(r == (self@ == other@));
                r
            },
            (ModuleId::Str(a), ModuleId::Str(b)) => {
                let r = *a == *b;
                assert(r == (self@ == other@));
                r
            },
            _ => {
                assert(self@ != other@);
                false
            },
        }
    }
}

/// Appends the wire-format rendering of one module id.
pub(crate) fn push_module_id_json(out: &mut String, id: &ModuleId)
    ensures
        final(out)@ == old(out)@ + module_id_json(id@),
{
    match id {
        ModuleId::Num(n) => push_u64_dec(out, *n),
        ModuleId::Str(s) => push_json_string(out, s.as_str()),
    }
}

/// Appends the JSON array rendering of a list of module ids.
pub(crate) fn push_module_id_array(out: &mut String, ids: &Vec<ModuleId>)
    ensures
        final(out)@ == old(out)@ + module_id_array_json(ids.deep_view()),
{
    let ghost vs = ids.deep_view();
    push_char(out, '[');
    let mut i: usize = 0;
    while i < ids.len()
        invariant
            ids@.len() == vs.len(),
            forall|j: int| 0 <= j < vs.len() ==> vs[j] == ids@[j]@,
            i <= ids.len(),
            out@ == old(out)@.push('[') + module_id_array_items(vs.take(i as int)),
        decreases ids.len() - i,
    {
        if i > 0 {
            push_char(out, ',');
        }
        push_module_id_json(out, &ids[i]);
        proof {
            let t = vs.take(i + 1 as int);
            assert(t.drop_last() =~= vs.take(i as int));
            assert(t.last() == vs[i as int]);
            if i == 0 {
                assert(module_id_array_items(vs.take(0)) =~= Seq::<char>::empty());
            }
            assert(out@ =~= old(out)@.push('[') + module_id_array_items(t));
        }
        i = i + 1;
    }
    push_char(out, ']');
    proof {
        assert(vs.take(vs.len() as int) =~= vs);
        assert((old(out)@.push('[') + module_id_array_items(vs)).push(']') =~= old(out)@
            + module_id_array_json(vs));
    }
}

/// Whether a character is a decimal digit.
pub open spec fn is_dec_digit(c: char) -> bool {
    '0' <= c && c <= '9'
}

/// The value of one decimal digit character.
pub open spec fn digit_val(c: char) -> int {
    c as int - '0' as int
}

/// Whether every character of `s` is a decimal digit.
pub open spec fn all_dec_digits(s: Seq<char>) -> bool {
    forall|i: int| 0 <= i < s.len() ==> is_dec_digit(s[i])
}

/// The numeric value of a sequence of decimal digit characters.
pub open spec fn digits_val(s: Seq<char>) -> int
    decreases s.len(),
{
    if s.len() == 0 {
        0
    } else {
        digits_val(s.drop_last()) * 10 + digit_val(s.last())
    }
}

/// The module-id grammar: a non-empty run of decimal digits whose value
/// fits the numeric id range is a numeric id; anything else is a string id.
pub open spec fn parse_module_id_spec(s: Seq<char>) -> ModuleIdView {
    if s.len() > 0 && all_dec_digits(s) && digits_val(s) <= u64::MAX {
        ModuleIdView::Num(digits_val(s) as u64)
    } else {
        ModuleIdView::Str(s)
    }
}

proof fn lemma_digits_val_nonneg(s: Seq<char>)
    requires
        all_dec_digits(s),
    ensures
        digits_val(s) >= 0,
    decreases s.len(),
{
    if s.len() > 0 {
        assert(all_dec_digits(s.drop_last()));
        lemma_digits_val_nonneg(s.drop_last());
    }
}

/// A digit run's value only grows as further digits are appended.
proof fn lemma_digits_val_prefix(s: Seq<char>, k: int)
    requires
        0 <= k <= s.len(),
        all_dec_digits(s),
    ensures
        digits_val(s) >= digits_val(s.take(k)),
    decreases s.len() - k,
{
    if k < s.len() {
        let t = s.take(k + 1);
        assert(t.drop_last() =~= s.take(k));
        lemma_digits_val_nonneg(s.take(k));
        assert(all_dec_digits(t));
        assert(digits_val(t) >= digits_val(s.take(k)));
        lemma_digits_val_prefix(s, k + 1);
    } else {
        assert(s.take(k) =~= s);
    }
}

/// Parses a module-id string under the module-id grammar.
pub fn parse_module_id(s: &str) -> (id: ModuleId)
    ensures
        id@ == parse_module_id_spec(s@),
{
    let n = s.unicode_len();
    if n == 0 {
        return ModuleId::Str(str_to_string(s));
    }
    let mut val: u64 = 0;
    let mut i: usize = 0;
    assert(s@.take(0) =~= Seq::<char>::empty());
    while i < n
        invariant
            n == s@.len(),
            0 < n,
            i <= n,
            all_dec_digits(s@.take(i as int)),
            val == digits_val(s@.take(i as int)),
        decreases n - i,
    {
        let c = s.get_char(i);
        if c < '0' || c > '9' {
            assert(!is_dec_digit(s@[i as int]));
            return ModuleId::Str(str_to_string(s));
        }
        let d: u64 = (c as u64) - 48;
        proof {
            let t = s@.take(i + 1 as int);
            assert(t.drop_last() =~= s@.take(i as int));
            assert(all_dec_digits(t));
        }
        let next = match val.checked_mul(10) {
            Some(v10) => v10.checked_add(d),
            None => None,
        };
        match next {
            Some(v) => {
                val = v;
            },
            None => {
                proof {
                    let t = s@.take(i + 1 as int);
                    assert(digits_val(t) > u64::MAX);
                    if all_dec_digits(s@) {
                        lemma_digits_val_prefix(s@, i + 1);
                    }
                }
                return ModuleId::Str(str_to_string(s));
            },
        }
        i = i + 1;
    }
    assert(s@.take(n as int) =~= s@);
    ModuleId::Num(val)
}

} // verus!
