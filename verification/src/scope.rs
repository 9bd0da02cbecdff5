use vstd::prelude::*;
use vstd::std_specs::cmp::PartialEqSpecImpl;
use vstd::std_specs::convert::FromSpecImpl;
use vstd::string::StringExecFns;
use crate::text::{flush_word, words_after, lemma_trim_without_white_space, split_whitespace, split_whitespace_spec, str_views, trim, trim_str, to_chars, has_white_space, any_white_space, contains_char, is_white_space};

verus! {

/// Why a single scope was refused.
#[derive(Debug, Clone, Copy, PartialEq, Eq, Structural)]
pub enum ParseScopeError {
    Empty,
    ContainsWhitespace,
    ContainsComma,
}

/// The checks a scope must pass, in order: on success the trimmed scope, else the first
/// check that failed.
pub open spec fn scope_check(s: Seq<char>) -> Result<Seq<char>, ParseScopeError> {
    let t = trim(s);
    if t.len() == 0 {
        Err(ParseScopeError::Empty)
    } else if has_white_space(t) {
        Err(ParseScopeError::ContainsWhitespace)
    } else if t.contains(',') {
        Err(ParseScopeError::ContainsComma)
    } else {
        Ok(t)
    }
}

/// A scope text is valid when the checks accept it unchanged.
pub open spec fn scope_view_wf(s: Seq<char>) -> bool {
    scope_check(s) == Ok::<Seq<char>, ParseScopeError>(s)
}

/// A single OAuth scope value.
#[derive(Debug, Hash)]
pub struct Scope(String);

impl View for Scope {
    type V = Seq<char>;

    closed spec fn view(&self) -> Seq<char> {
        self.0@
    }
}

impl Scope {
    #[verifier::type_invariant]
    closed spec fn inv(self) -> bool {
        scope_view_wf(self.0@)
    }

    /// Parses a scope: trimmed, non-empty, without white space or commas.
    pub fn parse(s: &str) -> (r: Result<Self, ParseScopeError>)
        ensures
            match r {
                Ok(scope) => scope_check(s@) == Ok::<Seq<char>, ParseScopeError>(scope@),
                Err(e) => scope_check(s@) == Err::<Seq<char>, ParseScopeError>(e),
            },
    {
        let s = trim_str(s);
        let v = to_chars(s);
        if v.len() == 0 {
            return Err(ParseScopeError::Empty);
        }
        if any_white_space(&v) {
            return Err(ParseScopeError::ContainsWhitespace);
        }
        if contains_char(&v, ',') {
            return Err(ParseScopeError::ContainsComma);
        }
        proof {
            lemma_trim_without_white_space(v@);
        }
        Ok(Scope(s.to_owned()))
    }

    /// The scope's text.
    pub fn as_str(&self) -> (r: &str)
        ensures
            r@ == self@,
            scope_view_wf(self@),
    {
        proof {
            use_type_invariant(self);
        }
        self.0.as_str()
    }

    /// The scope's text as an owned string.
    pub fn to_string(&self) -> (r: String)
        ensures
            r@ == self@,
            scope_view_wf(self@),
    {
        proof {
            use_type_invariant(self);
        }
        self.0.clone()
    }
}

impl Clone for Scope {
    fn clone(&self) -> (r: Self)
        ensures
            r@ == self@,
    {
        proof {
            use_type_invariant(self);
        }
        Scope(self.0.clone())
    }
}

impl PartialEq for Scope {
    fn eq(&self, other: &Self) -> (r: bool) {
        self.0 == other.0
    }
}

impl PartialEqSpecImpl for Scope {
    open spec fn obeys_eq_spec() -> bool {
        true
    }

    open spec fn eq_spec(&self, other: &Self) -> bool {
        self@ == other@
    }
}

impl Eq for Scope {
}

impl AsRef<str> for Scope {
    fn as_ref(&self) -> (r: &str)
        ensures
            r@ == self@,
    {
        self.as_str()
    }
}

impl From<Scope> for String {
    fn from(value: Scope) -> (r: String)
        ensures
            r@ == value@,
    {
        value.0
    }
}

impl FromSpecImpl<Scope> for String {
    open spec fn obeys_from_spec() -> bool {
        false
    }

    open spec fn from_spec(value: Scope) -> String {
        arbitrary()
    }
}

impl std::str::FromStr for Scope {
    type Err = ParseScopeError;

    fn from_str(s: &str) -> (r: Result<Self, Self::Err>)
        ensures
            match r {
                Ok(scope) => scope_check(s@) == Ok::<Seq<char>, ParseScopeError>(scope@),
                Err(e) => scope_check(s@) == Err::<Seq<char>, ParseScopeError>(e),
            },
    {
        Self::parse(s)
    }
}



/// Why a list of scopes was refused.
#[derive(Debug, Clone)]
pub enum ParseScopesError {
    Empty,
    InvalidScope { index: usize, value: String, source: ParseScopeError },
}

impl PartialEq for ParseScopesError {
    fn eq(&self, other: &Self) -> (r: bool) {
        match (self, other) {
            (ParseScopesError::Empty, ParseScopesError::Empty) => true,
            (
                ParseScopesError::InvalidScope { index: i1, value: v1, source: s1 },
                ParseScopesError::InvalidScope { index: i2, value: v2, source: s2 },
            ) => *i1 == *i2 && *v1 == *v2 && *s1 == *s2,
            _ => false,
        }
    }
}

impl PartialEqSpecImpl for ParseScopesError {
    open spec fn obeys_eq_spec() -> bool {
        true
    }

    open spec fn eq_spec(&self, other: &Self) -> bool {
        match (self, other) {
            (ParseScopesError::Empty, ParseScopesError::Empty) => true,
            (
                ParseScopesError::InvalidScope { index: i1, value: v1, source: s1 },
                ParseScopesError::InvalidScope { index: i2, value: v2, source: s2 },
            ) => i1 == i2 && v1@ == v2@ && s1 == s2,
            _ => false,
        }
    }
}

impl Eq for ParseScopesError {
}

/// A list of scope texts is valid when it is not empty and every text is a valid scope.
pub open spec fn scopes_view_wf(ws: Seq<Seq<char>>) -> bool {
    &&& ws.len() > 0
    &&& forall|i: int| 0 <= i < ws.len() ==> scope_view_wf(#[trigger] ws[i])
}

/// Parsing `s` as a scope list succeeds: it has words, and the scope checks accept each.
pub open spec fn scopes_parse_succeeds(s: Seq<char>) -> bool {
    let words = split_whitespace_spec(s);
    &&& words.len() > 0
    &&& forall|i: int| 0 <= i < words.len() ==> (#[trigger] scope_check(words[i])) is Ok
}

/// Parsing `s` as a scope list succeeds and yields the scope texts `ws`.
pub open spec fn scopes_parse_to(s: Seq<char>, ws: Seq<Seq<char>>) -> bool {
    &&& scopes_parse_succeeds(s)
    &&& split_whitespace_spec(s) == ws
}

/// Parsing `s` as a scope list fails with `e`: no words at all, or the first word that the
/// scope checks refuse, with its position and the reason.
pub open spec fn scopes_parse_error(s: Seq<char>, e: ParseScopesError) -> bool {
    let words = split_whitespace_spec(s);
    match e {
        ParseScopesError::Empty => words.len() == 0,
        ParseScopesError::InvalidScope { index, value, source } => {
            &&& index < words.len()
            &&& value@ == words[index as int]
            &&& scope_check(words[index as int]) == Err::<Seq<char>, ParseScopeError>(source)
            &&& forall|j: int| 0 <= j < index ==> (#[trigger] scope_check(words[j])) is Ok
        },
    }
}

/// The texts joined with single spaces.
pub open spec fn join_with_space(ws: Seq<Seq<char>>) -> Seq<char>
    decreases ws.len(),
{
    if ws.len() == 0 {
        Seq::empty()
    } else if ws.len() == 1 {
        ws[0]
    } else {
        ws[0] + seq![' '] + join_with_space(ws.drop_first())
    }
}

/// A non-empty list of scopes.
#[derive(Debug)]
pub struct Scopes(Vec<Scope>);

impl View for Scopes {
    type V = Seq<Seq<char>>;

    closed spec fn view(&self) -> Seq<Seq<char>> {
        self.0@.map_values(|s: Scope| s@)
    }
}

impl Scopes {
    #[verifier::type_invariant]
    closed spec fn inv(self) -> bool {
        scopes_view_wf(self@)
    }

    /// Parses a white-space separated list of scopes.
    pub fn parse(s: &str) -> (r: Result<Self, ParseScopesError>)
        ensures
            match r {
                Ok(scopes) => scopes_parse_to(s@, scopes@),
                Err(e) => scopes_parse_error(s@, e),
            },
            r is Ok <==> scopes_parse_succeeds(s@),
    {
        let parts = split_whitespace(s);
        let ghost words = split_whitespace_spec(s@);
        let n = parts.len();
        let mut scopes: Vec<Scope> = Vec::new();
        for index in 0..n
            invariant
                n == parts@.len(),
                str_views(parts@) == words,
                words == split_whitespace_spec(s@),
                scopes@.len() == index,
                forall|j: int| 0 <= j < index ==> (#[trigger] scope_check(words[j])) is Ok,
                forall|j: int| 0 <= j < index ==> scope_check(words[j]) == Ok::<Seq<char>, ParseScopeError>(#[trigger] scopes@[j]@),
        {
            let part = parts[index];
            assert(part@ == words[index as int]);
            match Scope::parse(part) {
                Ok(scope) => {
                    scopes.push(scope);
                },
                Err(source) => {
                    return Err(ParseScopesError::InvalidScope { index, value: part.to_owned(), source });
                },
            }
        }
        if scopes.len() == 0 {
            return Err(ParseScopesError::Empty);
        }
        let r = Scopes(scopes);
        proof {
            lemma_words_are_scopes(s@);
            assert forall|j: int| 0 <= j < n implies r@[j] == words[j] by {
                assert(scope_check(words[j]) == Ok::<Seq<char>, ParseScopeError>(words[j]));
            }
            assert(r@ =~= words);
        }
        Ok(r)
    }

    /// The scopes, in order.
    pub fn as_slice(&self) -> (r: &[Scope])
        ensures
            r@.map_values(|s: Scope| s@) == self@,
            scopes_view_wf(self@),
    {
        proof {
            use_type_invariant(self);
        }
        self.0.as_slice()
    }

    /// The scopes, in order.
    pub fn into_vec(self) -> (r: Vec<Scope>)
        ensures
            r@.map_values(|s: Scope| s@) == self@,
    {
        self.0
    }

    /// The scopes joined with single spaces, as the token endpoints expect them.
    pub fn scope_string(&self) -> (r: String)
        ensures
            r@ == join_with_space(self@),
            scopes_view_wf(self@),
    {
        proof {
            use_type_invariant(self);
        }
        let n = self.0.len();
        let mut res = String::new();
        let ghost ws = self@;
        for i in 0..n
            invariant
                n == self.0@.len() == ws.len(),
                ws == self@,
                i == 0 ==> res@ == Seq::<char>::empty(),
                i > 0 ==> res@ == join_with_space(ws.take(i as int)),
        {
            if i > 0 {
                let sep = " ";
                proof {
                    reveal_strlit(" ");
                }
                res.append(sep);
                proof {
                    lemma_join_push(ws.take(i as int), ws[i as int]);
                    assert(ws.take(i as int).push(ws[i as int]) =~= ws.take(i + 1));
                }
            } else {
                assert(ws.take(1) =~= seq![ws[0]]);
            }
            let ghost before = res@;
            res.append(self.0[i].as_str());
            assert(self.0@[i as int]@ == ws[i as int]);
        }
        assert(ws.take(n as int) =~= ws);
        res
    }

    /// The scopes joined with single spaces.
    pub fn to_string(&self) -> (r: String)
        ensures
            r@ == join_with_space(self@),
    {
        self.scope_string()
    }
}

impl Clone for Scopes {
    fn clone(&self) -> (r: Self)
        ensures
            r@ == self@,
    {
        proof {
            use_type_invariant(self);
        }
        let n = self.0.len();
        let mut v: Vec<Scope> = Vec::new();
        for i in 0..n
            invariant
                n == self.0@.len(),
                v@.len() == i,
                forall|j: int| 0 <= j < i ==> #[trigger] v@[j]@ == self.0@[j]@,
        {
            v.push(self.0[i].clone());
        }
        assert(v@.map_values(|s: Scope| s@) =~= self@);
        Scopes(v)
    }
}

impl PartialEq for Scopes {
    fn eq(&self, other: &Self) -> (r: bool) {
        let n = self.0.len();
        if n != other.0.len() {
            assert(self@.len() != other@.len());
            return false;
        }
        for i in 0..n
            invariant
                n == self.0@.len() == other.0@.len(),
                forall|j: int| 0 <= j < i ==> #[trigger] self@[j] == other@[j],
        {
            if self.0[i] != other.0[i] {
                assert(self@[i as int] != other@[i as int]);
                return false;
            }
        }
        assert(self@ =~= other@);
        true
    }
}

impl PartialEqSpecImpl for Scopes {
    open spec fn obeys_eq_spec() -> bool {
        true
    }

    open spec fn eq_spec(&self, other: &Self) -> bool {
        self@ == other@
    }
}

impl Eq for Scopes {
}

impl std::str::FromStr for Scopes {
    type Err = ParseScopesError;

    fn from_str(s: &str) -> (r: Result<Self, Self::Err>)
        ensures
            match r {
                Ok(scopes) => scopes_parse_to(s@, scopes@),
                Err(e) => scopes_parse_error(s@, e),
            },
            r is Ok <==> scopes_parse_succeeds(s@),
    {
        Self::parse(s)
    }
}

/// Every word of a text is non-empty and free of white space, so the scope checks accept
/// it unchanged or refuse it for a comma.
pub proof fn lemma_words_are_scopes(s: Seq<char>)
    ensures
        forall|i: int| 0 <= i < split_whitespace_spec(s).len() ==> {
            let w = #[trigger] split_whitespace_spec(s)[i];
            scope_check(w) == Ok::<Seq<char>, ParseScopeError>(w) || scope_check(w) == Err::<Seq<char>, ParseScopeError>(ParseScopeError::ContainsComma)
        },
{
    lemma_words_after_shape(s, Seq::empty());
    assert forall|i: int| 0 <= i < split_whitespace_spec(s).len() implies {
        let w = #[trigger] split_whitespace_spec(s)[i];
        scope_check(w) == Ok::<Seq<char>, ParseScopeError>(w) || scope_check(w) == Err::<Seq<char>, ParseScopeError>(ParseScopeError::ContainsComma)
    } by {
        let w = split_whitespace_spec(s)[i];
        lemma_trim_without_white_space(w);
    }
}

/// The words read after a white-space-free word `cur` are non-empty and free of white space.
pub proof fn lemma_words_after_shape(s: Seq<char>, cur: Seq<char>)
    requires
        !has_white_space(cur),
    ensures
        forall|i: int| 0 <= i < words_after(s, cur).len() ==> {
            let w = #[trigger] words_after(s, cur)[i];
            w.len() > 0 && !has_white_space(w)
        },
    decreases s.len(),
{
    if s.len() == 0 {
        assert(words_after(s, cur) == flush_word(cur));
        if cur.len() > 0 {
            assert(flush_word(cur) =~= seq![cur]);
        }
    } else if is_white_space(s[0]) {
        lemma_words_after_shape(s.drop_first(), Seq::empty());
        let a = flush_word(cur);
        let b = words_after(s.drop_first(), Seq::empty());
        assert(words_after(s, cur) == a + b);
        assert forall|i: int| 0 <= i < words_after(s, cur).len() implies {
            let w = #[trigger] words_after(s, cur)[i];
            w.len() > 0 && !has_white_space(w)
        } by {
            if i < a.len() {
                assert(a =~= seq![cur]);
                assert(words_after(s, cur)[i] == a[i]);
            } else {
                assert(words_after(s, cur)[i] == b[i - a.len()]);
            }
        }
    } else {
        assert(!has_white_space(cur.push(s[0]))) by {
            assert forall|k: int| 0 <= k < cur.push(s[0]).len() implies !is_white_space(#[trigger] cur.push(s[0])[k]) by {
                if k < cur.len() {
                    assert(cur.push(s[0])[k] == cur[k]);
                }
            }
        }
        lemma_words_after_shape(s.drop_first(), cur.push(s[0]));
        assert(words_after(s, cur) == words_after(s.drop_first(), cur.push(s[0])));
    }
}

/// Joining a list with one more text appends a space and that text.
pub proof fn lemma_join_push(ws: Seq<Seq<char>>, x: Seq<char>)
    requires
        ws.len() > 0,
    ensures
        join_with_space(ws.push(x)) == join_with_space(ws) + seq![' '] + x,
    decreases ws.len(),
{
    let wx = ws.push(x);
    assert(wx[0] == ws[0]);
    if ws.len() == 1 {
        assert(wx.drop_first() =~= seq![x]);
        assert(join_with_space(seq![x]) == x);
        assert(join_with_space(wx) == ws[0] + seq![' '] + x);
        assert(join_with_space(ws) == ws[0]);
    } else {
        assert(wx.drop_first() =~= ws.drop_first().push(x));
        lemma_join_push(ws.drop_first(), x);
        assert(join_with_space(wx) == ws[0] + seq![' '] + join_with_space(ws.drop_first().push(x)));
        assert(join_with_space(ws) == ws[0] + seq![' '] + join_with_space(ws.drop_first()));
        assert(join_with_space(wx) =~= join_with_space(ws) + seq![' '] + x);
    }
}


/// Reading a white-space-free text extends the current word by it.
pub proof fn lemma_words_after_word(w: Seq<char>, r: Seq<char>, cur: Seq<char>)
    requires
        !has_white_space(w),
    ensures
        words_after(w + r, cur) == words_after(r, cur + w),
    decreases w.len(),
{
    if w.len() == 0 {
        assert(w + r =~= r);
        assert(cur + w =~= cur);
    } else {
        assert(!is_white_space(w[0]));
        assert((w + r)[0] == w[0]);
        assert((w + r).drop_first() =~= w.drop_first() + r);
        assert(!has_white_space(w.drop_first())) by {
            assert forall|k: int| 0 <= k < w.drop_first().len() implies !is_white_space(#[trigger] w.drop_first()[k]) by {
                assert(w.drop_first()[k] == w[k + 1]);
            }
        }
        lemma_words_after_word(w.drop_first(), r, cur.push(w[0]));
        assert(cur.push(w[0]) + w.drop_first() =~= cur + w);
    }
}

/// Joining valid scope texts with single spaces and splitting the result at white space
/// gives the texts back, each accepted by the scope checks: the text that `scope_string`
/// produces parses back to the same scopes.
pub proof fn law_scope_string_parses_back(ws: Seq<Seq<char>>)
    requires
        scopes_view_wf(ws),
    ensures
        scopes_parse_to(join_with_space(ws), ws),
    decreases ws.len(),
{
    lemma_split_join(ws);
    assert forall|i: int| 0 <= i < ws.len() implies (#[trigger] scope_check(ws[i])) is Ok by {
        assert(scope_view_wf(ws[i]));
    }
}

/// The number of spaces in `s`.
pub open spec fn space_count(s: Seq<char>) -> int
    decreases s.len(),
{
    if s.len() == 0 {
        0
    } else {
        (if s[0] == ' ' { 1int } else { 0int }) + space_count(s.drop_first())
    }
}

proof fn lemma_space_count_add(a: Seq<char>, b: Seq<char>)
    ensures
        space_count(a + b) == space_count(a) + space_count(b),
    decreases a.len(),
{
    if a.len() == 0 {
        assert(a + b =~= b);
    } else {
        assert((a + b).drop_first() =~= a.drop_first() + b);
        assert((a + b)[0] == a[0]);
        lemma_space_count_add(a.drop_first(), b);
    }
}

proof fn lemma_space_count_none(w: Seq<char>)
    requires
        forall|i: int| 0 <= i < w.len() ==> #[trigger] w[i] != ' ',
    ensures
        space_count(w) == 0,
    decreases w.len(),
{
    if w.len() > 0 {
        assert(w[0] != ' ');
        assert forall|i: int| 0 <= i < w.drop_first().len() implies #[trigger] w.drop_first()[i] != ' ' by {
            assert(w.drop_first()[i] == w[i + 1]);
        }
        lemma_space_count_none(w.drop_first());
    }
}

/// The scope string of valid scopes is not empty, neither starts nor ends with a space, never
/// holds two spaces in a row, and holds one space fewer than there are scopes.
pub proof fn law_scope_string_shape(ws: Seq<Seq<char>>)
    requires
        scopes_view_wf(ws),
    ensures
        join_with_space(ws).len() > 0,
        join_with_space(ws)[0] != ' ',
        join_with_space(ws).last() != ' ',
        forall|i: int| 0 <= i < join_with_space(ws).len() - 1
            ==> !(#[trigger] join_with_space(ws)[i] == ' ' && join_with_space(ws)[i + 1] == ' '),
        space_count(join_with_space(ws)) == ws.len() - 1,
    decreases ws.len(),
{
    let w = ws[0];
    assert(scope_view_wf(w));
    assert(w.len() > 0 && !has_white_space(w));
    assert(is_white_space(' '));
    assert forall|i: int| 0 <= i < w.len() implies #[trigger] w[i] != ' ' by {
        if w[i] == ' ' {
            assert(is_white_space(w[i]));
        }
    }
    lemma_space_count_none(w);
    if ws.len() > 1 {
        let rest = ws.drop_first();
        assert(scopes_view_wf(rest)) by {
            assert forall|i: int| 0 <= i < rest.len() implies scope_view_wf(#[trigger] rest[i]) by {
                assert(rest[i] == ws[i + 1]);
            }
        }
        law_scope_string_shape(rest);
        let j = join_with_space(rest);
        let s = join_with_space(ws);
        assert(s == w + seq![' '] + j);
        lemma_space_count_add(w, seq![' '] + j);
        lemma_space_count_add(seq![' '], j);
        assert(space_count(seq![' ']) == 1) by {
            assert(seq![' '].drop_first() =~= Seq::<char>::empty());
            assert(space_count(Seq::<char>::empty()) == 0);
            assert(seq![' '][0] == ' ');
        }
        assert(s =~= w + (seq![' '] + j));
        assert(s[0] == w[0]);
        assert(s.last() == j.last());
        assert forall|i: int| 0 <= i < s.len() - 1 implies !(#[trigger] s[i] == ' ' && s[i + 1] == ' ') by {
            if i < w.len() {
                assert(s[i] == w[i]);
            } else if i == w.len() {
                assert(s[i + 1] == j[0]);
            } else {
                assert(s[i] == j[i - w.len() - 1]);
                assert(s[i + 1] == j[i + 1 - w.len() - 1]);
            }
        }
    }
}

proof fn lemma_split_join(ws: Seq<Seq<char>>)
    requires
        scopes_view_wf(ws),
    ensures
        split_whitespace_spec(join_with_space(ws)) == ws,
    decreases ws.len(),
{
    let w = ws[0];
    assert(scope_view_wf(w));
    assert(w.len() > 0 && !has_white_space(w));
    let empty = Seq::<char>::empty();
    if ws.len() == 1 {
        lemma_words_after_word(w, empty, empty);
        assert(w + empty =~= w);
        assert(empty + w =~= w);
        assert(words_after(empty, w) == flush_word(w));
        assert(flush_word(w) =~= seq![w]);
        assert(ws =~= seq![w]);
    } else {
        let rest = ws.drop_first();
        assert(scopes_view_wf(rest)) by {
            assert forall|i: int| 0 <= i < rest.len() implies scope_view_wf(#[trigger] rest[i]) by {
                assert(rest[i] == ws[i + 1]);
            }
        }
        lemma_split_join(rest);
        let j = join_with_space(rest);
        let tail = seq![' '] + j;
        assert(join_with_space(ws) == w + seq![' '] + j);
        assert(w + seq![' '] + j =~= w + tail);
        lemma_words_after_word(w, tail, empty);
        assert(empty + w =~= w);
        assert(tail[0] == ' ');
        assert(tail.drop_first() =~= j);
        assert(words_after(tail, w) == flush_word(w) + words_after(j, empty));
        assert(flush_word(w) =~= seq![w]);
        assert(ws =~= seq![w] + rest);
    }
}

/// A scope is accepted exactly when, once trimmed, it is not empty and holds neither white
/// space nor a comma, and it is then the trimmed text; otherwise the error names the first of
/// those that fails.
pub proof fn law_scope_check_meaning(s: Seq<char>)
    ensures
        scope_check(s) is Ok <==> (trim(s).len() > 0 && forall|i: int|
            0 <= i < trim(s).len() ==> !is_white_space(#[trigger] trim(s)[i]) && trim(s)[i] != ','),
        scope_check(s) is Ok ==> scope_check(s) == Ok::<Seq<char>, ParseScopeError>(trim(s)),
        scope_check(s) == Err::<Seq<char>, ParseScopeError>(ParseScopeError::Empty) <==> trim(s).len() == 0,
        scope_check(s) == Err::<Seq<char>, ParseScopeError>(ParseScopeError::ContainsWhitespace) <==> (trim(s).len() > 0
            && exists|i: int| 0 <= i < trim(s).len() && is_white_space(#[trigger] trim(s)[i])),
        scope_check(s) == Err::<Seq<char>, ParseScopeError>(ParseScopeError::ContainsComma) <==> (trim(s).len() > 0
            && (forall|i: int| 0 <= i < trim(s).len() ==> !is_white_space(#[trigger] trim(s)[i]))
            && exists|i: int| 0 <= i < trim(s).len() && #[trigger] trim(s)[i] == ','),
{
    let t = trim(s);
    if t.contains(',') {
        let i = choose|i: int| 0 <= i < t.len() && t[i] == ',';
        assert(t[i] == ',');
    }
    if exists|i: int| 0 <= i < t.len() && #[trigger] t[i] == ',' {
        let i = choose|i: int| 0 <= i < t.len() && #[trigger] t[i] == ',';
        assert(t.contains(','));
    }
}

}
