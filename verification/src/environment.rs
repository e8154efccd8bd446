//! The environment handed to a script: a mapping from variable names to
//! values, built from the request's headers, method, path and query.

use vstd::prelude::*;

use crate::query::{form_pairs, parse_pairs};
use crate::text::{option_text, pair_views, text_of};

verus! {

/// One request header: its name as received and the bytes of its value.
#[derive(Debug, PartialEq, Eq)]
pub struct Header {
    pub name: String,
    pub value: Vec<u8>,
}

/// The names and value bytes of a sequence of headers.
pub open spec fn header_views(headers: Seq<Header>) -> Seq<(Seq<char>, Seq<u8>)> {
    Seq::new(headers.len(), |i: int| (headers[i].name@, headers[i].value@))
}

/// The mapping that results from binding each pair in turn, a later pair
/// replacing an earlier one of the same name.
pub open spec fn bindings(entries: Seq<(Seq<char>, Seq<char>)>) -> Map<Seq<char>, Seq<char>>
    decreases entries.len(),
{
    if entries.len() == 0 {
        Map::empty()
    } else {
        bindings(entries.drop_last()).insert(entries.last().0, entries.last().1)
    }
}

/// No two entries share a name.
pub open spec fn distinct_names(entries: Seq<(Seq<char>, Seq<char>)>) -> bool {
    forall|i: int, j: int| 0 <= i < j < entries.len() ==> entries[i].0 != entries[j].0
}

/// A byte that may stand in header text: printable ASCII or a tab.
pub open spec fn is_visible(b: u8) -> bool {
    (32 <= b && b < 127) || b == 9
}

/// The text of a header value: its bytes as characters where all of them are
/// visible, and the empty text otherwise.
pub open spec fn spec_header_text(value: Seq<u8>) -> Seq<char> {
    if forall|i: int| 0 <= i < value.len() ==> is_visible(#[trigger] value[i]) {
        Seq::new(value.len(), |i: int| value[i] as char)
    } else {
        Seq::<char>::empty()
    }
}

/// `env` with every header bound in turn under its own name.
pub open spec fn with_headers(
    env: Map<Seq<char>, Seq<char>>,
    headers: Seq<(Seq<char>, Seq<u8>)>,
) -> Map<Seq<char>, Seq<char>>
    decreases headers.len(),
{
    if headers.len() == 0 {
        env
    } else {
        with_headers(env, headers.drop_last()).insert(
            headers.last().0,
            spec_header_text(headers.last().1),
        )
    }
}

/// The variable name under which the query parameter `key` is passed.
pub open spec fn query_name(key: Seq<char>) -> Seq<char> {
    "Query_"@ + key
}

/// `env` with every query parameter bound in turn under `Query_<key>`.
pub open spec fn with_query(
    env: Map<Seq<char>, Seq<char>>,
    pairs: Seq<(Seq<char>, Seq<char>)>,
) -> Map<Seq<char>, Seq<char>>
    decreases pairs.len(),
{
    if pairs.len() == 0 {
        env
    } else {
        with_query(env, pairs.drop_last()).insert(query_name(pairs.last().0), pairs.last().1)
    }
}

/// The environment of a script: the headers, then `Method` and `Path`, then
/// the query parameters, each binding replacing an earlier one of its name.
pub open spec fn environment_of(
    headers: Seq<(Seq<char>, Seq<u8>)>,
    method: Seq<char>,
    path: Seq<char>,
    pairs: Seq<(Seq<char>, Seq<char>)>,
) -> Map<Seq<char>, Seq<char>> {
    with_query(
        with_headers(Map::empty(), headers).insert("Method"@, method).insert("Path"@, path),
        pairs,
    )
}

/// The query parameters of a request: those that the form decoder finds in
/// the query string, none where the request has no query string.
pub open spec fn query_pairs(query: Option<Seq<char>>) -> Seq<(Seq<char>, Seq<char>)> {
    match query {
        Some(q) => form_pairs(q),
        None => Seq::empty(),
    }
}

/// With distinct names, every entry is bound to its own value.
pub proof fn lemma_bindings_hold_entry(entries: Seq<(Seq<char>, Seq<char>)>, i: int)
    requires
        distinct_names(entries),
        0 <= i < entries.len(),
    ensures
        bindings(entries).contains_key(entries[i].0),
        bindings(entries)[entries[i].0] == entries[i].1,
    decreases entries.len(),
{
    if i < entries.len() - 1 {
        lemma_bindings_hold_entry(entries.drop_last(), i);
    }
}

/// A name that no entry carries is not bound.
pub proof fn lemma_bindings_lack_name(entries: Seq<(Seq<char>, Seq<char>)>, name: Seq<char>)
    requires
        forall|i: int| 0 <= i < entries.len() ==> entries[i].0 != name,
    ensures
        !bindings(entries).contains_key(name),
    decreases entries.len(),
{
    if entries.len() > 0 {
        lemma_bindings_lack_name(entries.drop_last(), name);
    }
}

/// Replacing the value of the one entry named `name` binds `name` anew and
/// leaves every other binding as it was.
pub proof fn lemma_bindings_after_replace(
    entries: Seq<(Seq<char>, Seq<char>)>,
    i: int,
    value: Seq<char>,
)
    requires
        distinct_names(entries),
        0 <= i < entries.len(),
    ensures
        bindings(entries.update(i, (entries[i].0, value))) == bindings(entries).insert(
            entries[i].0,
            value,
        ),
    decreases entries.len(),
{
    let name = entries[i].0;
    let replaced = entries.update(i, (name, value));
    let shorter = entries.drop_last();
    if i == entries.len() - 1 {
        assert(replaced.drop_last() =~= shorter);
        assert(bindings(replaced) =~= bindings(entries).insert(name, value));
    } else {
        assert(replaced.drop_last() =~= shorter.update(i, (shorter[i].0, value)));
        assert(replaced.last() == entries.last());
        lemma_bindings_after_replace(shorter, i, value);
        assert(entries.last().0 != name);
        assert(bindings(replaced) =~= bindings(entries).insert(name, value));
    }
}

/// Two query keys give the same variable name only if they are the same key.
pub proof fn lemma_query_name_is_injective(a: Seq<char>, b: Seq<char>)
    requires
        query_name(a) == query_name(b),
    ensures
        a == b,
{
    let n = "Query_"@.len() as int;
    assert(query_name(a).subrange(n, query_name(a).len() as int) =~= a);
    assert(query_name(b).subrange(n, query_name(b).len() as int) =~= b);
}

/// Of the query parameters that share a key, the last one gives the value:
/// a parameter whose key no later parameter repeats is what the script sees
/// under `Query_<key>`.
pub proof fn lemma_last_query_value_wins(
    env: Map<Seq<char>, Seq<char>>,
    pairs: Seq<(Seq<char>, Seq<char>)>,
    i: int,
)
    requires
        0 <= i < pairs.len(),
        forall|j: int| i < j < pairs.len() ==> pairs[j].0 != pairs[i].0,
    ensures
        with_query(env, pairs).contains_key(query_name(pairs[i].0)),
        with_query(env, pairs)[query_name(pairs[i].0)] == pairs[i].1,
    decreases pairs.len(),
{
    if i < pairs.len() - 1 {
        lemma_last_query_value_wins(env, pairs.drop_last(), i);
        if query_name(pairs.last().0) == query_name(pairs[i].0) {
            lemma_query_name_is_injective(pairs.last().0, pairs[i].0);
        }
    }
}

/// `Method` and `Path` are always set, to the request's method and path,
/// unless a query parameter's variable takes one of their names, which none
/// can: every such variable starts with `Query_`.
pub proof fn lemma_method_and_path_are_set(
    headers: Seq<(Seq<char>, Seq<u8>)>,
    method: Seq<char>,
    path: Seq<char>,
    pairs: Seq<(Seq<char>, Seq<char>)>,
)
    ensures
        environment_of(headers, method, path, pairs).contains_key("Method"@),
        environment_of(headers, method, path, pairs)["Method"@] == method,
        environment_of(headers, method, path, pairs).contains_key("Path"@),
        environment_of(headers, method, path, pairs)["Path"@] == path,
    decreases pairs.len(),
{
    reveal_strlit("Method");
    reveal_strlit("Path");
    reveal_strlit("Query_");
    if pairs.len() > 0 {
        lemma_method_and_path_are_set(headers, method, path, pairs.drop_last());
        let name = query_name(pairs.last().0);
        assert(name[0] == 'Q');
        assert("Method"@[0] == 'M');
        assert("Path"@[0] == 'P');
    } else {
        assert("Method"@[0] == 'M');
        assert("Path"@[0] == 'P');
    }
}

fn position(entries: &Vec<(String, String)>, name: &String) -> (at: Option<usize>)
    ensures
        match at {
            Some(i) => i < entries@.len() && entries@[i as int].0@ == name@,
            None => forall|j: int| 0 <= j < entries@.len() ==> entries@[j].0@ != name@,
        },
{
    let mut i: usize = 0;
    while i < entries.len()
        invariant
            i <= entries@.len(),
            forall|j: int| 0 <= j < i ==> entries@[j].0@ != name@,
        decreases entries@.len() - i,
    {
        if entries[i].0 == *name {
            return Some(i);
        }
        i += 1;
    }
    None
}

/// A mapping from variable names to values in which each name occurs once.
#[derive(Debug)]
pub struct Environment {
    entries: Vec<(String, String)>,
}

impl View for Environment {
    type V = Map<Seq<char>, Seq<char>>;

    closed spec fn view(&self) -> Map<Seq<char>, Seq<char>> {
        bindings(pair_views(self.entries@))
    }
}

impl Environment {
    #[verifier::type_invariant]
    spec fn names_are_distinct(&self) -> bool {
        distinct_names(pair_views(self.entries@))
    }

    /// The environment without any variable: nothing is bound in it and its
    /// length is zero.
    pub fn new() -> (env: Environment)
        ensures
            env@ == Map::<Seq<char>, Seq<char>>::empty(),
            env.spec_len() == 0,
    {
        let env = Environment { entries: Vec::new() };
        assert(pair_views(env.entries@) =~= Seq::empty());
        env
    }

    /// Binds `name` to `value`, replacing what `name` was bound to before.
    pub fn set(&mut self, name: String, value: String)
        ensures
            final(self)@ == old(self)@.insert(name@, value@),
    {
        proof {
            use_type_invariant(&*self);
        }
        let mut entries: Vec<(String, String)> = Vec::new();
        assert(pair_views(entries@) =~= Seq::empty());
        std::mem::swap(&mut self.entries, &mut entries);
        let ghost before = pair_views(entries@);
        match position(&entries, &name) {
            Some(i) => {
                proof {
                    lemma_bindings_after_replace(before, i as int, value@);
                }
                entries.set(i, (name, value));
                assert(pair_views(entries@) =~= before.update(
                    i as int,
                    (before[i as int].0, value@),
                ));
            },
            None => {
                entries.push((name, value));
                assert(pair_views(entries@) =~= before.push((name@, value@)));
                assert(pair_views(entries@).drop_last() =~= before);
            },
        }
        std::mem::swap(&mut self.entries, &mut entries);
    }

    /// The value that `name` is bound to, if it is bound.
    pub fn get(&self, name: &str) -> (value: Option<String>)
        ensures
            match value {
                Some(v) => self@.contains_key(name@) && self@[name@] == v@,
                None => !self@.contains_key(name@),
            },
    {
        proof {
            use_type_invariant(self);
        }
        let wanted = name.to_owned();
        match position(&self.entries, &wanted) {
            Some(i) => {
                proof {
                    lemma_bindings_hold_entry(pair_views(self.entries@), i as int);
                }
                Some(self.entries[i].1.clone())
            },
            None => {
                proof {
                    lemma_bindings_lack_name(pair_views(self.entries@), name@);
                }
                None
            },
        }
    }

    /// The number of variables.
    pub fn len(&self) -> (n: usize)
        ensures
            n == self.spec_len(),
    {
        self.entries.len()
    }

    /// The number of variables.
    pub closed spec fn spec_len(&self) -> nat {
        self.entries@.len()
    }

    /// The variables as name and value pairs, each name once.
    pub fn into_pairs(self) -> (pairs: Vec<(String, String)>)
        ensures
            distinct_names(pair_views(pairs@)),
            bindings(pair_views(pairs@)) == self@,
            pairs@.len() == self.spec_len(),
    {
        proof {
            use_type_invariant(&self);
        }
        self.entries
    }
}

fn is_visible_byte(b: u8) -> (yes: bool)
    ensures
        yes == is_visible(b),
{
    (32 <= b && b < 127) || b == 9
}

/// The text of a header value: its bytes as characters where all of them are
/// visible, and the empty text otherwise.
pub fn header_text(value: &Vec<u8>) -> (text: String)
    ensures
        text@ == spec_header_text(value@),
{
    let mut chars: Vec<char> = Vec::new();
    let mut i: usize = 0;
    while i < value.len()
        invariant
            i <= value.len(),
            chars@.len() == i,
            forall|j: int| 0 <= j < i ==> is_visible(#[trigger] value@[j]),
            forall|j: int| 0 <= j < i ==> chars@[j] == value@[j] as char,
        decreases value.len() - i,
    {
        let b = value[i];
        if !is_visible_byte(b) {
            return String::new();
        }
        chars.push(b as char);
        i += 1;
    }
    assert(chars@ =~= Seq::new(value@.len(), |i: int| value@[i] as char));
    text_of(chars)
}

/// Builds the environment of a script from the request's headers, method and
/// path and from its decoded query parameters.
pub fn build_environment(
    headers: &Vec<Header>,
    method: &str,
    path: &str,
    pairs: &Vec<(String, String)>,
) -> (env: Environment)
    ensures
        env@ == environment_of(header_views(headers@), method@, path@, pair_views(pairs@)),
{
    let mut env = Environment::new();
    let mut i: usize = 0;
    assert(header_views(headers@).take(0) =~= Seq::empty());
    while i < headers.len()
        invariant
            i <= headers.len(),
            env@ == with_headers(Map::empty(), header_views(headers@).take(i as int)),
        decreases headers.len() - i,
    {
        let text = header_text(&headers[i].value);
        env.set(headers[i].name.clone(), text);
        proof {
            let all = header_views(headers@);
            assert(all.take(i + 1).drop_last() =~= all.take(i as int));
            assert(all.take(i + 1).last() == all[i as int]);
        }
        i += 1;
    }
    assert(header_views(headers@).take(headers.len() as int) =~= header_views(headers@));
    env.set(String::from_str("Method"), method.to_owned());
    env.set(String::from_str("Path"), path.to_owned());
    let ghost base = env@;
    let mut k: usize = 0;
    assert(pair_views(pairs@).take(0) =~= Seq::empty());
    while k < pairs.len()
        invariant
            k <= pairs.len(),
            env@ == with_query(base, pair_views(pairs@).take(k as int)),
        decreases pairs.len() - k,
    {
        let name = String::from_str("Query_").concat(pairs[k].0.as_str());
        env.set(name, pairs[k].1.clone());
        proof {
            let all = pair_views(pairs@);
            assert(all.take(k + 1).drop_last() =~= all.take(k as int));
            assert(all.take(k + 1).last() == all[k as int]);
        }
        k += 1;
    }
    assert(pair_views(pairs@).take(pairs.len() as int) =~= pair_views(pairs@));
    env
}

/// The environment of a script for a request with the given headers, method,
/// path and query string. The query string is decoded as a form.
pub fn script_environment(
    headers: &Vec<Header>,
    method: &str,
    path: &str,
    query: &Option<String>,
) -> (env: Environment)
    ensures
        env@ == environment_of(
            header_views(headers@),
            method@,
            path@,
            query_pairs(option_text(*query)),
        ),
{
    let pairs = match query {
        Some(q) => parse_pairs(q.as_str()),
        None => Vec::new(),
    };
    assert(query is None ==> pair_views(pairs@) =~= Seq::empty());
    build_environment(headers, method, path, &pairs)
}

} // verus!
