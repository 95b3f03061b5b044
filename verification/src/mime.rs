//! The content type of a body: a base type such as `application/json` and the
//! parameters that follow it, `charset` among them.
//!
//! A content type is written `type "/" subtype *( ";" parameter )`, and a
//! parameter `name "=" value`. Blanks around the base type, around a name and
//! around a value do not count. The base type and the names are kept in ASCII
//! lower case; a value keeps the case it was written in.
//!
//! A base type that is not a type, a `/` and a subtype is an error. A
//! parameter that is none is not: a piece without `=`, or with a name that is
//! empty or is no token, is left out, and the content type is accepted
//! without it. Quotes have no meaning of their own: a quoted value keeps its
//! quotes.

use crate::text::{
    chars_of, collect, copy_lowered, copy_range, find, lemma_lowered_twice, lemma_segments_from,
    lowered, next_index, pairs_view, segments, segments_after, to_lowered, trim_range, trimmed,
};
use vstd::prelude::*;

verus! {

/// Why a string is no content type.
#[derive(Debug, Clone, Copy, PartialEq, Eq, Structural)]
pub enum MimeParseError {
    /// There is no `/` in the base type.
    MissingSlash,
    /// Nothing stands before the `/`, or nothing behind it.
    EmptyPart,
    /// The type or the subtype holds a character that a token may not hold.
    InvalidCharacter,
}

/// What a content type holds: the base type and, in the order in which they
/// were written, the parameters as pairs of name and value.
pub struct MimeTypeView {
    pub base: Seq<char>,
    pub params: Seq<(Seq<char>, Seq<char>)>,
}

/// A character that a type, a subtype or a parameter's name is made of.
pub open spec fn is_token_char(c: char) -> bool {
    ||| ('a' <= c && c <= 'z')
    ||| ('A' <= c && c <= 'Z')
    ||| ('0' <= c && c <= '9')
    ||| c == '!'
    ||| c == '#'
    ||| c == '$'
    ||| c == '%'
    ||| c == '&'
    ||| c == '\''
    ||| c == '*'
    ||| c == '+'
    ||| c == '-'
    ||| c == '.'
    ||| c == '^'
    ||| c == '_'
    ||| c == '`'
    ||| c == '|'
    ||| c == '~'
}

/// Every character of `s` from `from` up to `to` is a token character.
pub open spec fn tokens_between(s: Seq<char>, from: int, to: int) -> bool {
    forall|k: int| from <= k < to ==> is_token_char(#[trigger] s[k])
}

/// What is wrong with `base` as a base type, if anything is: it must be a
/// type, one `/` and a subtype, both made of one token character or more.
pub open spec fn base_fault(base: Seq<char>) -> Option<MimeParseError> {
    let slash = next_index(base, 0, '/');
    if slash >= base.len() {
        Some(MimeParseError::MissingSlash)
    } else if slash == 0 || slash + 1 == base.len() {
        Some(MimeParseError::EmptyPart)
    } else if !tokens_between(base, 0, slash) || !tokens_between(
        base,
        slash + 1,
        base.len() as int,
    ) {
        Some(MimeParseError::InvalidCharacter)
    } else {
        None
    }
}

/// The parameter that the piece `seg` spells: the name before the first `=`
/// in lower case and the value behind it, both without the blanks around
/// them. A piece without `=`, or with a name that is empty or holds a
/// character that is no token character, spells none.
pub open spec fn param_of(seg: Seq<char>) -> Option<(Seq<char>, Seq<char>)> {
    let eq = next_index(seg, 0, '=');
    let name = lowered(trimmed(seg.subrange(0, eq)));
    if eq >= seg.len() || name.len() == 0 || !tokens_between(name, 0, name.len() as int) {
        None
    } else {
        Some((name, trimmed(seg.subrange(eq + 1, seg.len() as int))))
    }
}

/// The parameters that the pieces spell, in the order of the pieces.
pub open spec fn params_of(segs: Seq<Seq<char>>) -> Seq<(Seq<char>, Seq<char>)>
    decreases segs.len(),
{
    if segs.len() == 0 {
        Seq::empty()
    } else {
        match param_of(segs.first()) {
            Some(p) => seq![p] + params_of(segs.drop_first()),
            None => params_of(segs.drop_first()),
        }
    }
}

/// What `raw` means as a content type. The piece before the first `;` is the
/// base type; each later piece is a parameter or is passed over.
pub open spec fn parsed(raw: Seq<char>) -> Result<MimeTypeView, MimeParseError> {
    let segs = segments(raw, ';');
    let base = lowered(trimmed(segs[0]));
    match base_fault(base) {
        Some(e) => Err(e),
        None => Ok(MimeTypeView { base, params: params_of(segs.skip(1)) }),
    }
}

/// The value of the first parameter of `params` that is named `name`.
pub open spec fn lookup(params: Seq<(Seq<char>, Seq<char>)>, name: Seq<char>) -> Option<Seq<char>>
    decreases params.len(),
{
    if params.len() == 0 {
        None
    } else if params.first().0 == name {
        Some(params.first().1)
    } else {
        lookup(params.drop_first(), name)
    }
}

/// A name of a parameter: a token, in lower case.
pub open spec fn is_name(name: Seq<char>) -> bool {
    name.len() > 0 && tokens_between(name, 0, name.len() as int) && lowered(name) == name
}

/// What holds of every content type: the base type is a type, a `/` and a
/// subtype in lower case, and every parameter has a token for a name, in
/// lower case.
pub open spec fn well_formed(v: MimeTypeView) -> bool {
    &&& base_fault(v.base) is None
    &&& lowered(v.base) == v.base
    &&& forall|i: int| 0 <= i < v.params.len() ==> is_name((#[trigger] v.params[i]).0)
}

/// `lookup` finds the first parameter of that name and no other: what it
/// returns stands at the least index that holds the name.
pub proof fn lemma_lookup_first(params: Seq<(Seq<char>, Seq<char>)>, name: Seq<char>)
    ensures
        match lookup(params, name) {
            Some(v) => exists|i: int|
                0 <= i < params.len() && params[i].0 == name && params[i].1 == v && (forall|j: int|
                    0 <= j < i ==> params[j].0 != name),
            None => forall|i: int| 0 <= i < params.len() ==> params[i].0 != name,
        },
    decreases params.len(),
{
    if params.len() > 0 && params.first().0 != name {
        let rest = params.drop_first();
        lemma_lookup_first(rest, name);
        match lookup(rest, name) {
            Some(v) => {
                let i = choose|i: int|
                    0 <= i < rest.len() && rest[i].0 == name && rest[i].1 == v && (forall|j: int|
                        0 <= j < i ==> rest[j].0 != name);
                assert(params[i + 1] == rest[i]);
                assert forall|j: int| 0 <= j < i + 1 implies params[j].0 != name by {
                    if j > 0 {
                        assert(params[j] == rest[j - 1]);
                    }
                }
                assert(params[i + 1].0 == name && params[i + 1].1 == v);
            },
            None => {
                assert forall|i: int| 0 <= i < params.len() implies params[i].0 != name by {
                    if i > 0 {
                        assert(params[i] == rest[i - 1]);
                    }
                }
            },
        }
    } else if params.len() > 0 {
        assert(0 <= 0 < params.len() && params[0].0 == name && params[0].1 == params.first().1);
    }
}

/// Every parameter that the pieces spell has a token for a name, in lower
/// case.
pub proof fn lemma_params_named(segs: Seq<Seq<char>>)
    ensures
        forall|i: int|
            0 <= i < params_of(segs).len() ==> is_name((#[trigger] params_of(segs)[i]).0),
    decreases segs.len(),
{
    if segs.len() > 0 {
        let rest = segs.drop_first();
        lemma_params_named(rest);
        match param_of(segs.first()) {
            Some(p) => {
                let seg = segs.first();
                lemma_lowered_twice(trimmed(seg.subrange(0, next_index(seg, 0, '='))));
                assert forall|i: int| 0 <= i < params_of(segs).len() implies is_name(
                    (#[trigger] params_of(segs)[i]).0,
                ) by {
                    if i > 0 {
                        assert(params_of(segs)[i] == params_of(rest)[i - 1]);
                    }
                }
            },
            None => {},
        }
    }
}

/// Whatever `parsed` accepts is well formed.
pub proof fn lemma_parsed_well_formed(raw: Seq<char>)
    ensures
        parsed(raw) matches Ok(v) ==> well_formed(v),
{
    let segs = segments(raw, ';');
    lemma_lowered_twice(trimmed(segs[0]));
    lemma_params_named(segs.skip(1));
}

/// A content type: a base type and its parameters.
///
/// Two content types are equal when their base types are: a codec is chosen
/// by the base type, whatever the charset.
#[derive(Debug)]
pub struct MimeType {
    base: String,
    params: Vec<(String, String)>,
}

impl View for MimeType {
    type V = MimeTypeView;

    closed spec fn view(&self) -> MimeTypeView {
        MimeTypeView { base: self.base@, params: pairs_view(self.params@) }
    }
}

/// Tells whether `c` may stand in a type, a subtype or a parameter's name.
pub fn token_char(c: char) -> (r: bool)
    ensures
        r == is_token_char(c),
{
    ('a' <= c && c <= 'z') || ('A' <= c && c <= 'Z') || ('0' <= c && c <= '9') || c == '!' || c
        == '#' || c == '$' || c == '%' || c == '&' || c == '\'' || c == '*' || c == '+' || c == '-'
        || c == '.' || c == '^' || c == '_' || c == '`' || c == '|' || c == '~'
}

/// Tells whether the range `from..to` of `chars` holds token characters only.
fn all_tokens(chars: &Vec<char>, from: usize, to: usize) -> (r: bool)
    requires
        from <= to <= chars.len(),
    ensures
        r == tokens_between(chars@, from as int, to as int),
{
    let mut i: usize = from;
    while i < to
        invariant
            from <= i <= to <= chars.len(),
            tokens_between(chars@, from as int, i as int),
        decreases to - i,
    {
        if !token_char(chars[i]) {
            return false;
        }
        i = i + 1;
    }
    true
}

/// Finds what is wrong with `base` as a base type, if anything is.
fn check_base(base: &Vec<char>) -> (r: Option<MimeParseError>)
    ensures
        r == base_fault(base@),
{
    let slash = find(base, 0, '/');
    if slash >= base.len() {
        Some(MimeParseError::MissingSlash)
    } else if slash == 0 || slash + 1 == base.len() {
        Some(MimeParseError::EmptyPart)
    } else if !all_tokens(base, 0, slash) || !all_tokens(base, slash + 1, base.len()) {
        Some(MimeParseError::InvalidCharacter)
    } else {
        None
    }
}

/// The name and the value as the characters that they hold.
pub open spec fn param_view(p: Option<(String, String)>) -> Option<(Seq<char>, Seq<char>)> {
    match p {
        Some(p) => Some((p.0@, p.1@)),
        None => None,
    }
}

/// Reads the piece `from..to` of `chars` as a parameter.
fn parse_param(chars: &Vec<char>, from: usize, to: usize) -> (r: Option<(String, String)>)
    requires
        from <= to <= chars.len(),
    ensures
        param_view(r) == param_of(chars@.subrange(from as int, to as int)),
{
    let seg = copy_range(chars, from, to);
    let eq = find(&seg, 0, '=');
    let (name_from, name_to) = trim_range(&seg, 0, eq);
    let low = copy_lowered(&seg, name_from, name_to);
    if eq >= seg.len() || low.len() == 0 || !all_tokens(&low, 0, low.len()) {
        return None;
    }
    let name = collect(&low, 0, low.len());
    assert(low@.subrange(0, low@.len() as int) == low@);
    let (value_from, value_to) = trim_range(&seg, eq + 1, seg.len());
    let value = collect(&seg, value_from, value_to);
    Some((name, value))
}

impl MimeType {
    /// Every content type is well formed.
    #[verifier::type_invariant]
    spec fn inv(self) -> bool {
        well_formed(self@)
    }

    /// Reads `raw` as a content type. The base type must be a type, a `/` and
    /// a subtype; a piece that spells no parameter is passed over.
    pub fn parse(raw: &str) -> (r: Result<MimeType, MimeParseError>)
        ensures
            match r {
                Ok(m) => parsed(raw@) == Ok::<MimeTypeView, MimeParseError>(m@),
                Err(e) => parsed(raw@) == Err::<MimeTypeView, MimeParseError>(e),
            },
    {
        let chars = chars_of(raw);
        let n = chars.len();
        let first_end = find(&chars, 0, ';');
        let (base_from, base_to) = trim_range(&chars, 0, first_end);
        let low = copy_lowered(&chars, base_from, base_to);
        proof {
            lemma_segments_from(chars@, 0, ';');
            assert(segments(chars@, ';')[0] == chars@.subrange(0, first_end as int));
            assert(segments(chars@, ';').skip(1) == segments_after(chars@, first_end as int, ';'));
        }
        match check_base(&low) {
            Some(e) => {
                return Err(e);
            },
            None => {},
        }
        let base = collect(&low, 0, low.len());
        assert(low@.subrange(0, low@.len() as int) == low@);
        let mut params: Vec<(String, String)> = Vec::new();
        let mut at: usize = first_end;
        assert(pairs_view(params@) + params_of(segments_after(chars@, at as int, ';')) == params_of(
            segments_after(chars@, first_end as int, ';'),
        ));
        while at < n
            invariant
                at <= n,
                n == chars.len(),
                first_end <= n,
                pairs_view(params@) + params_of(segments_after(chars@, at as int, ';'))
                    == params_of(segments_after(chars@, first_end as int, ';')),
            decreases n - at,
        {
            let from = at + 1;
            let end = find(&chars, from, ';');
            let ghost before = pairs_view(params@);
            let ghost seg = chars@.subrange(from as int, end as int);
            let ghost rest = segments_after(chars@, end as int, ';');
            proof {
                lemma_segments_from(chars@, from as int, ';');
                assert(segments_after(chars@, at as int, ';') == seq![seg] + rest);
                assert((seq![seg] + rest).first() == seg);
                assert((seq![seg] + rest).drop_first() == rest);
            }
            match parse_param(&chars, from, end) {
                Some(p) => {
                    proof {
                        assert(pairs_view(params@.push(p)) == before + seq![(p.0@, p.1@)]);
                        assert(before + (seq![(p.0@, p.1@)] + params_of(rest)) == (before + seq![
                            (p.0@, p.1@),
                        ]) + params_of(rest));
                    }
                    params.push(p);
                },
                None => {},
            }
            at = end;
        }
        proof {
            lemma_parsed_well_formed(raw@);
            assert(pairs_view(params@) + Seq::<(Seq<char>, Seq<char>)>::empty() == pairs_view(
                params@,
            ));
        }
        Ok(MimeType { base, params })
    }

    /// The base type, in lower case: `application/json`.
    pub fn base_type(&self) -> (r: &str)
        ensures
            r@ == self@.base,
            well_formed(self@),
    {
        proof {
            use_type_invariant(self);
        }
        self.base.as_str()
    }

    /// How many parameters the content type has.
    pub fn parameter_count(&self) -> (r: usize)
        ensures
            r == self@.params.len(),
    {
        self.params.len()
    }

    /// The value of the first parameter named `name`, whatever the case of
    /// the letters of `name`.
    pub fn parameter(&self, name: &str) -> (r: Option<&str>)
        ensures
            match r {
                Some(v) => lookup(self@.params, lowered(name@)) == Some(v@),
                None => lookup(self@.params, lowered(name@)) is None,
            },
    {
        let wanted = to_lowered(name);
        let mut i: usize = 0;
        assert(self@.params.skip(0) == self@.params);
        while i < self.params.len()
            invariant
                i <= self.params.len(),
                wanted@ == lowered(name@),
                lookup(self@.params, wanted@) == lookup(self@.params.skip(i as int), wanted@),
            decreases self.params.len() - i,
        {
            let ghost here = self@.params.skip(i as int);
            assert(here.first() == (self.params@[i as int].0@, self.params@[i as int].1@));
            assert(here.drop_first() == self@.params.skip(i as int + 1));
            if self.params[i].0 == wanted {
                return Some(self.params[i].1.as_str());
            }
            i = i + 1;
        }
        None
    }

    /// The value of the parameter `charset`, if there is one.
    pub fn charset(&self) -> (r: Option<&str>)
        ensures
            match r {
                Some(v) => lookup(self@.params, "charset"@) == Some(v@),
                None => lookup(self@.params, "charset"@) is None,
            },
    {
        proof {
            reveal_strlit("charset");
            assert(lowered("charset"@) == "charset"@);
        }
        self.parameter("charset")
    }

    /// Tells whether the base type is `base`, which is compared as it
    /// stands: the base type of a content type is in lower case.
    pub fn has_base(&self, base: &str) -> (r: bool)
        ensures
            r == (self@.base == base@),
    {
        let other = String::from_str(base);
        self.base == other
    }
}

impl Clone for MimeType {
    fn clone(&self) -> (r: MimeType)
        ensures
            r@ == self@,
    {
        proof {
            use_type_invariant(self);
        }
        let mut params: Vec<(String, String)> = Vec::new();
        let mut i: usize = 0;
        while i < self.params.len()
            invariant
                i <= self.params.len(),
                pairs_view(params@) == pairs_view(self.params@).take(i as int),
            decreases self.params.len() - i,
        {
            let name = self.params[i].0.clone();
            let value = self.params[i].1.clone();
            params.push((name, value));
            assert(pairs_view(params@) =~= pairs_view(self.params@).take(i as int).push(
                (self.params@[i as int].0@, self.params@[i as int].1@),
            ));
            assert(pairs_view(self.params@).take(i as int + 1) =~= pairs_view(self.params@).take(
                i as int,
            ).push(pairs_view(self.params@)[i as int]));
            i = i + 1;
        }
        assert(pairs_view(self.params@).take(i as int) == pairs_view(self.params@));
        MimeType { base: self.base.clone(), params }
    }
}

impl PartialEq for MimeType {
    fn eq(&self, other: &MimeType) -> (r: bool) {
        self.base == other.base
    }
}

impl Eq for MimeType {

}

impl vstd::std_specs::cmp::PartialEqSpecImpl for MimeType {
    open spec fn obeys_eq_spec() -> bool {
        true
    }

    open spec fn eq_spec(&self, other: &MimeType) -> bool {
        self@.base == other@.base
    }
}

} // verus!
