use vstd::prelude::*;
use vstd::string::StrSliceExecFns;
use crate::entity_type::{EntityType, ENTITY_TYPE_COUNT, lemma_snake_names_distinct, lemma_type_index_round_trip, names_a_type, snake_name_of, type_at, type_index};

verus! {

/// A subscription list named an entity type that does not exist.
#[derive(Debug, Clone)]
pub struct UnknownEntityName {
    pub name: String,
}

/// Reads the entity types that a subscription lists by snake-case name. An
/// empty list subscribes to every type (`None`); a name of no type is an
/// error that carries the first such name.
pub fn parse_entity_type_list(items: &Vec<String>) -> (r: Result<Option<Vec<EntityType>>, UnknownEntityName>)
    ensures
        r is Err <==> exists|i: int| 0 <= i < items@.len() && !names_a_type(#[trigger] items@[i]@),
        r matches Err(e) ==> exists|i: int|
            0 <= i < items@.len() && !names_a_type(#[trigger] items@[i]@) && e.name@ == items@[i]@
                && forall|j: int| 0 <= j < i ==> names_a_type(#[trigger] items@[j]@),
        r matches Ok(None) ==> items@.len() == 0,
        r matches Ok(Some(ts)) ==> items@.len() > 0 && ts@.len() == items@.len() && forall|i: int|
            0 <= i < items@.len() ==> snake_name_of(#[trigger] ts@[i]) == items@[i]@,
{
    let mut out: Vec<EntityType> = Vec::new();
    let mut i: usize = 0;
    while i < items.len()
        invariant
            i <= items@.len(),
            out@.len() == i,
            forall|j: int| 0 <= j < i ==> snake_name_of(#[trigger] out@[j]) == items@[j]@,
            forall|j: int| 0 <= j < i ==> names_a_type(#[trigger] items@[j]@),
        decreases items@.len() - i,
    {
        match EntityType::from_snake_name(items[i].as_str()) {
            Some(t) => {
                out.push(t);
            },
            None => {
                return Err(UnknownEntityName { name: items[i].clone() });
            },
        }
        i += 1;
    }
    proof {
        assert forall|j: int| 0 <= j < items@.len() implies names_a_type(#[trigger] items@[j]@) by {}
    }
    if out.len() == 0 {
        Ok(None)
    } else {
        Ok(Some(out))
    }
}

/// A joined subscription list held an item that names no entity type.
#[derive(Debug, Clone, Copy, PartialEq, Eq, Structural)]
pub struct InvalidEntityList {
    /// Position of the first such item in the list.
    pub item: usize,
}

/// The brackets a joined list may be wrapped in; they are ignored wherever
/// they stand.
pub open spec fn is_bracket(c: char) -> bool {
    c == '[' || c == ']'
}

/// `s` with every bracket removed.
pub open spec fn strip_brackets(s: Seq<char>) -> Seq<char>
    decreases s.len(),
{
    if s.len() == 0 {
        Seq::empty()
    } else if is_bracket(s.last()) {
        strip_brackets(s.drop_last())
    } else {
        strip_brackets(s.drop_last()).push(s.last())
    }
}

/// The characters that trimming removes: Unicode's `White_Space` set.
pub open spec fn is_whitespace(c: char) -> bool {
    ||| c == '\t' || c == '\n' || c == '\x0B' || c == '\x0C' || c == '\r' || c == ' '
    ||| c == '\u{85}' || c == '\u{A0}' || c == '\u{1680}'
    ||| ('\u{2000}' <= c && c <= '\u{200A}')
    ||| c == '\u{2028}' || c == '\u{2029}' || c == '\u{202F}' || c == '\u{205F}' || c == '\u{3000}'
}

/// `s` without its leading whitespace.
pub open spec fn trim_start(s: Seq<char>) -> Seq<char>
    decreases s.len(),
{
    if s.len() > 0 && is_whitespace(s[0]) {
        trim_start(s.drop_first())
    } else {
        s
    }
}

/// `s` without its trailing whitespace.
pub open spec fn trim_end(s: Seq<char>) -> Seq<char>
    decreases s.len(),
{
    if s.len() > 0 && is_whitespace(s.last()) {
        trim_end(s.drop_last())
    } else {
        s
    }
}

/// `s` without leading and trailing whitespace.
pub open spec fn trim(s: Seq<char>) -> Seq<char> {
    trim_end(trim_start(s))
}

/// The pieces of `s` between commas; there is always at least one.
pub open spec fn split_commas(s: Seq<char>) -> Seq<Seq<char>>
    decreases s.len(),
{
    if s.len() == 0 {
        seq![Seq::empty()]
    } else {
        let init = split_commas(s.drop_last());
        if s.last() == ',' {
            init.push(Seq::empty())
        } else {
            init.update(init.len() - 1, init.last().push(s.last()))
        }
    }
}

/// The type named `n`, if any.
pub open spec fn type_named(n: Seq<char>) -> Option<EntityType> {
    if names_a_type(n) {
        Some(choose|t: EntityType| snake_name_of(t) == n)
    } else {
        None
    }
}

/// The types that `names` name, in order, or the position of the first name
/// of no type.
pub open spec fn parse_names(names: Seq<Seq<char>>) -> Result<Seq<EntityType>, nat>
    decreases names.len(),
{
    if names.len() == 0 {
        Ok(Seq::empty())
    } else {
        match type_named(names[0]) {
            None => Err(0),
            Some(t) => match parse_names(names.drop_first()) {
                Ok(ts) => Ok(seq![t] + ts),
                Err(k) => Err(k + 1),
            },
        }
    }
}

/// What a joined list means: without brackets, empty means every type;
/// otherwise each comma-separated, trimmed item names a type.
pub open spec fn joined_list_spec(s: Seq<char>) -> Result<Option<Seq<EntityType>>, nat> {
    let stripped = strip_brackets(s);
    if stripped.len() == 0 {
        Ok(None)
    } else {
        match parse_names(split_commas(stripped).map_values(|p: Seq<char>| trim(p))) {
            Ok(ts) => Ok(Some(ts)),
            Err(k) => Err(k),
        }
    }
}

/// The result of parsing `names` once the first `i` types are known to be `ts`.
pub open spec fn after_prefix(i: nat, ts: Seq<EntityType>, rest: Result<Seq<EntityType>, nat>) -> Result<Seq<EntityType>, nat> {
    match rest {
        Ok(us) => Ok(ts + us),
        Err(k) => Err(k + i),
    }
}

/// The views of a list of character vectors.
pub open spec fn char_views(v: Seq<Vec<char>>) -> Seq<Seq<char>> {
    v.map_values(|x: Vec<char>| x@)
}

fn is_whitespace_char(c: char) -> (r: bool)
    ensures
        r == is_whitespace(c),
{
    c == '\t' || c == '\n' || c == '\x0B' || c == '\x0C' || c == '\r' || c == ' ' || c == '\u{85}'
        || c == '\u{A0}' || c == '\u{1680}' || ('\u{2000}' <= c && c <= '\u{200A}') || c == '\u{2028}'
        || c == '\u{2029}' || c == '\u{202F}' || c == '\u{205F}' || c == '\u{3000}'
}

/// Bounds of `v` without leading and trailing whitespace.
fn trim_bounds(v: &Vec<char>) -> (r: (usize, usize))
    ensures
        r.0 <= r.1 <= v@.len(),
        v@.subrange(r.0 as int, r.1 as int) == trim(v@),
{
    let n = v.len();
    let mut lo: usize = 0;
    assert(v@.subrange(0, n as int) =~= v@);
    while lo < n && is_whitespace_char(v[lo])
        invariant
            n == v@.len(),
            lo <= n,
            trim_start(v@) == trim_start(v@.subrange(lo as int, n as int)),
        decreases n - lo,
    {
        assert(v@.subrange(lo as int, n as int).drop_first() =~= v@.subrange(lo + 1, n as int));
        lo += 1;
    }
    assert(trim_start(v@) == v@.subrange(lo as int, n as int));
    let mut hi: usize = n;
    while hi > lo && is_whitespace_char(v[hi - 1])
        invariant
            n == v@.len(),
            lo <= hi <= n,
            trim(v@) == trim_end(v@.subrange(lo as int, hi as int)),
        decreases hi - lo,
    {
        assert(v@.subrange(lo as int, hi as int).drop_last() =~= v@.subrange(lo as int, hi - 1));
        hi -= 1;
    }
    (lo, hi)
}

/// Whether `v[lo..hi]` spells `s`.
fn chars_spell(v: &Vec<char>, lo: usize, hi: usize, s: &str) -> (r: bool)
    requires
        lo <= hi <= v@.len(),
    ensures
        r == (v@.subrange(lo as int, hi as int) == s@),
{
    let len = s.unicode_len();
    if hi - lo != len {
        return false;
    }
    let mut k: usize = 0;
    while k < len
        invariant
            len == s@.len(),
            hi - lo == len,
            lo <= hi <= v@.len(),
            k <= len,
            forall|m: int| 0 <= m < k ==> v@[lo + m] == s@[m],
        decreases len - k,
    {
        if v[lo + k] != s.get_char(k) {
            assert(v@.subrange(lo as int, hi as int)[k as int] != s@[k as int]);
            return false;
        }
        k += 1;
    }
    assert(v@.subrange(lo as int, hi as int) =~= s@);
    true
}

/// The type named by `v[lo..hi]`, if any.
fn type_named_by(v: &Vec<char>, lo: usize, hi: usize) -> (r: Option<EntityType>)
    requires
        lo <= hi <= v@.len(),
    ensures
        r == type_named(v@.subrange(lo as int, hi as int)),
{
    let ghost n = v@.subrange(lo as int, hi as int);
    let mut i: usize = 0;
    while i < ENTITY_TYPE_COUNT
        invariant
            lo <= hi <= v@.len(),
            n == v@.subrange(lo as int, hi as int),
            i <= ENTITY_TYPE_COUNT,
            forall|j: int| 0 <= j < i ==> ((#[trigger] type_at(j)) matches Some(u) && snake_name_of(u) != n),
        decreases ENTITY_TYPE_COUNT - i,
    {
        match EntityType::from_index(i) {
            Some(t) => {
                if chars_spell(v, lo, hi, t.snake_name()) {
                    proof {
                        let c = choose|u: EntityType| snake_name_of(u) == n;
                        lemma_snake_names_distinct(t, c);
                    }
                    return Some(t);
                }
            },
            None => {},
        }
        i += 1;
    }
    proof {
        assert forall|t: EntityType| snake_name_of(t) != n by {
            lemma_type_index_round_trip(t);
            assert(type_at(type_index(t) as int) == Some(t));
        }
    }
    None
}

/// Reads a subscription list given as one string: brackets are ignored, an
/// empty list subscribes to every type (`None`), and otherwise each
/// comma-separated item, trimmed, must name a type; the error gives the
/// position of the first item that does not.
pub fn parse_joined_entity_list(query: &str) -> (r: Result<Option<Vec<EntityType>>, InvalidEntityList>)
    ensures
        match joined_list_spec(query@) {
            Ok(None) => r == Ok::<Option<Vec<EntityType>>, InvalidEntityList>(None),
            Ok(Some(ts)) => r matches Ok(Some(v)) && v@ == ts,
            Err(k) => r matches Err(e) && e.item == k,
        },
{
    let n = query.unicode_len();
    let mut stripped: Vec<char> = Vec::new();
    let mut i: usize = 0;
    while i < n
        invariant
            n == query@.len(),
            i <= n,
            stripped@ == strip_brackets(query@.subrange(0, i as int)),
        decreases n - i,
    {
        let c = query.get_char(i);
        assert(query@.subrange(0, i + 1).drop_last() =~= query@.subrange(0, i as int));
        if c != '[' && c != ']' {
            stripped.push(c);
        }
        i += 1;
    }
    assert(query@.subrange(0, n as int) =~= query@);
    if stripped.len() == 0 {
        return Ok(None);
    }
    let mut pieces: Vec<Vec<char>> = Vec::new();
    let mut cur: Vec<char> = Vec::new();
    let sn = stripped.len();
    let mut j: usize = 0;
    while j < sn
        invariant
            stripped@ == strip_brackets(query@),
            stripped@.len() > 0,
            sn == stripped@.len(),
            j <= sn,
            split_commas(stripped@.subrange(0, j as int)) == char_views(pieces@).push(cur@),
        decreases sn - j,
    {
        let c = stripped[j];
        let ghost before = stripped@.subrange(0, j as int);
        assert(stripped@.subrange(0, j + 1).drop_last() =~= before);
        if c == ',' {
            let done = cur;
            pieces.push(done);
            cur = Vec::new();
            assert(char_views(pieces@).push(cur@) =~= split_commas(before).push(Seq::empty()));
        } else {
            cur.push(c);
            assert(char_views(pieces@).push(cur@) =~= split_commas(before).update(
                split_commas(before).len() - 1,
                split_commas(before).last().push(c),
            ));
        }
        j += 1;
    }
    pieces.push(cur);
    assert(stripped@.subrange(0, sn as int) =~= stripped@);
    let ghost names = split_commas(stripped@).map_values(|p: Seq<char>| trim(p));
    assert(names.len() == pieces@.len());
    // Name each trimmed piece.
    let pn = pieces.len();
    let mut types: Vec<EntityType> = Vec::new();
    let mut k: usize = 0;
    proof {
        assert(names.subrange(0, pn as int) =~= names);
        match parse_names(names) {
            Ok(us) => {
                assert(types@ + us =~= us);
            },
            Err(e) => {},
        }
    }
    while k < pn
        invariant
            stripped@ == strip_brackets(query@),
            stripped@.len() > 0,
            names == split_commas(stripped@).map_values(|p: Seq<char>| trim(p)),
            pn == pieces@.len(),
            names.len() == pn,
            forall|m: int| 0 <= m < pn ==> #[trigger] names[m] == trim(pieces@[m]@),
            k <= pn,
            parse_names(names) == after_prefix(k as nat, types@, parse_names(names.subrange(k as int, pn as int))),
        decreases pn - k,
    {
        let (lo, hi) = trim_bounds(&pieces[k]);
        let ghost rest = names.subrange(k as int, pn as int);
        assert(rest[0] == names[k as int]);
        assert(rest.drop_first() =~= names.subrange(k + 1, pn as int));
        match type_named_by(&pieces[k], lo, hi) {
            Some(t) => {
                let ghost old_types = types@;
                types.push(t);
                proof {
                    match parse_names(names.subrange(k + 1, pn as int)) {
                        Ok(us) => {
                            assert(old_types + (seq![t] + us) =~= types@ + us);
                        },
                        Err(e) => {},
                    }
                }
            },
            None => {
                proof {
                    assert(names[k as int] == trim(pieces@[k as int]@));
                    assert(type_named(rest[0]) is None);
                    assert(parse_names(rest) == Err::<Seq<EntityType>, nat>(0));
                    assert(parse_names(names) == Err::<Seq<EntityType>, nat>(k as nat));
                }
                return Err(InvalidEntityList { item: k });
            },
        }
        k += 1;
    }
    assert(names.subrange(pn as int, pn as int) =~= Seq::<Seq<char>>::empty());
    assert(types@ + Seq::<EntityType>::empty() =~= types@);
    Ok(Some(types))
}

} // verus!
