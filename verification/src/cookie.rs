//! The cookies that the provider has set so far.

use vstd::prelude::*;
use vstd::string::*;
use crate::error::{LoginError, LoginErrorView};

verus! {

/// `k` is where `item` first stands in `all`, or the length of `all` where it
/// stands nowhere.
pub open spec fn first_at<A>(all: Seq<A>, item: A, k: int) -> bool {
    &&& 0 <= k <= all.len()
    &&& forall|i: int| 0 <= i < k ==> all[i] != item
    &&& k < all.len() ==> all[k] == item
}

/// Where `item` first stands in `all`, or the length of `all`.
pub open spec fn first_index<A>(all: Seq<A>, item: A) -> int {
    choose|k: int| first_at(all, item, k)
}

/// `first_index` is the one position that `first_at` accepts.
pub proof fn lemma_first_index<A>(all: Seq<A>, item: A, k: int)
    requires
        first_at(all, item, k),
    ensures
        first_index(all, item) == k,
{
    // Two positions that `first_at` accepts cannot differ: the item would
    // stand at the smaller one and not stand there.
    let chosen = first_index(all, item);
    assert(first_at(all, item, chosen));
}

/// `first_index` is a position that `first_at` accepts.
pub proof fn lemma_first_index_is_first<A>(all: Seq<A>, item: A)
    ensures
        first_at(all, item, first_index(all, item)),
{
    lemma_first_exists(all, item, all.len() as int);
    assert(all.take(all.len() as int) =~= all);
}

/// Among the first `n` items of `all` there is a first `item`, or none.
proof fn lemma_first_exists<A>(all: Seq<A>, item: A, n: int)
    requires
        0 <= n <= all.len(),
    ensures
        exists|k: int| first_at(all.take(n), item, k),
    decreases n,
{
    let head = all.take(n);
    if n == 0 {
        assert(first_at(head, item, 0));
    } else {
        let shorter = all.take(n - 1);
        lemma_first_exists(all, item, n - 1);
        let k = choose|k: int| first_at(shorter, item, k);
        assert forall|i: int| 0 <= i < k implies head[i] != item by {
            assert(shorter[i] != item);
        }
        if k < n - 1 {
            assert(first_at(head, item, k));
        } else if all[n - 1] == item {
            assert(first_at(head, item, n - 1));
        } else {
            assert(first_at(head, item, n));
        }
    }
}

/// What a `Set-Cookie` value sets: the name and the value of its leading pair.
/// The leading pair ends before the first `;`, so that attributes such as
/// `Path` are left out; its name ends before its first `=`. A value whose
/// leading pair holds no `=` sets nothing.
pub open spec fn parse_set_cookie(raw: Seq<char>) -> Option<(Seq<char>, Seq<char>)> {
    let pair = raw.take(first_index(raw, ';'));
    let eq = first_index(pair, '=');
    if eq < pair.len() {
        Some((pair.take(eq), pair.skip(eq + 1)))
    } else {
        None
    }
}

/// The names of `entries`, in their order.
pub open spec fn names(entries: Seq<(Seq<char>, Seq<char>)>) -> Seq<Seq<char>> {
    Seq::new(entries.len(), |i: int| entries[i].0)
}

/// No name stands twice in `entries`.
pub open spec fn names_distinct(entries: Seq<(Seq<char>, Seq<char>)>) -> bool {
    forall|i: int, j: int| 0 <= i < j < entries.len() ==> entries[i].0 != entries[j].0
}

/// The value that `entries` holds for `name`, if any.
pub open spec fn lookup(entries: Seq<(Seq<char>, Seq<char>)>, name: Seq<char>) -> Option<Seq<char>> {
    let at = first_index(names(entries), name);
    if at < entries.len() {
        Some(entries[at].1)
    } else {
        None
    }
}

/// `entries` once `name` has been set to `value`: a name already held keeps
/// its place and takes the new value, a new name goes to the end.
pub open spec fn store(entries: Seq<(Seq<char>, Seq<char>)>, name: Seq<char>, value: Seq<char>) -> Seq<(Seq<char>, Seq<char>)> {
    let at = first_index(names(entries), name);
    if at < entries.len() {
        entries.update(at, (name, value))
    } else {
        entries.push((name, value))
    }
}

/// `entries` once the `Set-Cookie` value `raw` has been offered: its cookie is
/// set, and a value that sets nothing changes nothing.
pub open spec fn added(entries: Seq<(Seq<char>, Seq<char>)>, raw: Seq<char>) -> Seq<(Seq<char>, Seq<char>)> {
    match parse_set_cookie(raw) {
        Some((name, value)) => store(entries, name, value),
        None => entries,
    }
}

/// `entries` once each of the `Set-Cookie` values `headers` has been offered,
/// one after the other.
pub open spec fn added_all(entries: Seq<(Seq<char>, Seq<char>)>, headers: Seq<Seq<char>>) -> Seq<(Seq<char>, Seq<char>)>
    decreases headers.len(),
{
    if headers.len() == 0 {
        entries
    } else {
        added_all(added(entries, headers[0]), headers.drop_first())
    }
}

/// `raw` sets the cookie named `name`.
pub open spec fn sets(raw: Seq<char>, name: Seq<char>) -> bool {
    parse_set_cookie(raw) matches Some((set, _)) && set == name
}

/// `part` stands in `whole` from the position `at` on.
pub open spec fn stands_at(part: Seq<char>, whole: Seq<char>, at: int) -> bool {
    0 <= at && at + part.len() <= whole.len() && whole.subrange(at, at + part.len()) == part
}

/// `part` stands somewhere in `whole`.
pub open spec fn occurs(part: Seq<char>, whole: Seq<char>) -> bool {
    exists|at: int| stands_at(part, whole, at)
}

/// A cookie as it is written in a `Cookie` header.
pub open spec fn written(name: Seq<char>, value: Seq<char>) -> Seq<char> {
    name + seq!['='] + value
}

/// `entries` once the `Set-Cookie` values `headers` have been taken in, one
/// after the other, up to the first that sets nothing; and whether every one
/// of them set a cookie.
pub open spec fn merge(entries: Seq<(Seq<char>, Seq<char>)>, headers: Seq<Seq<char>>) -> (Seq<(Seq<char>, Seq<char>)>, bool)
    decreases headers.len(),
{
    if headers.len() == 0 {
        (entries, true)
    } else {
        match parse_set_cookie(headers[0]) {
            Some((name, value)) => merge(store(entries, name, value), headers.drop_first()),
            None => (entries, false),
        }
    }
}

/// The `Cookie` header value for `entries`: each as `name=value`, `; ` between
/// two of them.
pub open spec fn render(entries: Seq<(Seq<char>, Seq<char>)>) -> Seq<char>
    decreases entries.len(),
{
    if entries.len() == 0 {
        Seq::empty()
    } else if entries.len() == 1 {
        written(entries[0].0, entries[0].1)
    } else {
        render(entries.drop_last()) + seq![';', ' '] + written(entries.last().0, entries.last().1)
    }
}

/// Splits `text` at its first `c`: what stands before it and what stands
/// after it.
fn split_at_char(text: &str, c: char) -> (parts: Option<(&str, &str)>)
    ensures
        match parts {
            Some((head, tail)) => {
                let at = first_index(text@, c);
                at < text@.len() && head@ == text@.take(at) && tail@ == text@.skip(at + 1)
            },
            None => first_index(text@, c) == text@.len(),
        },
{
    let len = text.unicode_len();
    let mut at: usize = 0;
    for ch in it: text.chars()
        invariant
            at == it.index(),
            it.seq() == text@,
            text@.len() == len,
            forall|i: int| 0 <= i < at ==> text@[i] != c,
    {
        if ch == c {
            proof {
                lemma_first_index(text@, c, at as int);
            }
            return Some((text.substring_char(0, at), text.substring_char(at + 1, len)));
        }
        at = at + 1;
    }
    proof {
        lemma_first_index(text@, c, at as int);
    }
    None
}

/// One cookie of the jar.
#[derive(Debug, PartialEq, Eq)]
pub struct Cookie {
    pub name: String,
    pub value: String,
}

impl View for Cookie {
    type V = (Seq<char>, Seq<char>);

    open spec fn view(&self) -> (Seq<char>, Seq<char>) {
        (self.name@, self.value@)
    }
}

impl Cookie {
    /// Reads the leading pair of a `Set-Cookie` value.
    pub fn parse(raw: &str) -> (parsed: Option<Cookie>)
        ensures
            match parsed {
                Some(cookie) => parse_set_cookie(raw@) == Some(cookie@),
                None => parse_set_cookie(raw@) is None,
            },
    {
        let pair = match split_at_char(raw, ';') {
            Some((head, _)) => head,
            None => raw,
        };
        assert(pair@ == raw@.take(first_index(raw@, ';')));
        match split_at_char(pair, '=') {
            Some((name, value)) => Some(Cookie { name: name.to_owned(), value: value.to_owned() }),
            None => None,
        }
    }
}

/// The cookies of `entries` as pairs of texts.
pub open spec fn pairs(entries: Seq<Cookie>) -> Seq<(Seq<char>, Seq<char>)> {
    Seq::new(entries.len(), |i: int| entries[i]@)
}

/// Where the cookie named `name` stands in `entries`, or their number.
fn position(entries: &Vec<Cookie>, name: &String) -> (at: usize)
    ensures
        at as int == first_index(names(pairs(entries@)), name@),
        at <= entries@.len(),
{
    let mut at: usize = 0;
    while at < entries.len()
        invariant
            at <= entries@.len(),
            forall|i: int| 0 <= i < at ==> entries@[i].name@ != name@,
        decreases entries@.len() - at,
    {
        if entries[at].name == *name {
            proof {
                lemma_first_index(names(pairs(entries@)), name@, at as int);
            }
            return at;
        }
        at = at + 1;
    }
    proof {
        lemma_first_index(names(pairs(entries@)), name@, at as int);
    }
    at
}

/// Setting a cookie leaves each name once.
pub proof fn lemma_store_distinct(entries: Seq<(Seq<char>, Seq<char>)>, name: Seq<char>, value: Seq<char>)
    requires
        names_distinct(entries),
    ensures
        names_distinct(store(entries, name, value)),
{
    let at = first_index(names(entries), name);
    lemma_first_index_is_first(names(entries), name);
    let after = store(entries, name, value);
    assert forall|i: int, j: int| 0 <= i < j < after.len() implies after[i].0 != after[j].0 by {
        if at == entries.len() && j == at {
            assert(names(entries)[i] != name);
        }
    }
}

/// The cookies received so far, each name once, in the order in which the
/// names first came.
#[derive(Debug)]
pub struct CookieJar {
    entries: Vec<Cookie>,
}

impl View for CookieJar {
    type V = Seq<(Seq<char>, Seq<char>)>;

    closed spec fn view(&self) -> Seq<(Seq<char>, Seq<char>)> {
        pairs(self.entries@)
    }
}

impl CookieJar {
    #[verifier::type_invariant]
    spec fn each_name_once(&self) -> bool {
        names_distinct(self@)
    }

    /// A jar that holds nothing.
    pub fn new() -> (jar: CookieJar)
        ensures
            jar@ == Seq::<(Seq<char>, Seq<char>)>::empty(),
    {
        CookieJar { entries: Vec::new() }
    }

    /// Takes in one `Set-Cookie` value: the cookie of its leading pair is set,
    /// in place of an earlier one of that name. A value that sets nothing,
    /// having no `=` in its leading pair, is refused and leaves the jar as it
    /// was.
    pub fn add_cookie(&mut self, raw: &str) -> (taken: Result<(), LoginError>)
        ensures
            final(self)@ == added(old(self)@, raw@),
            match parse_set_cookie(raw@) {
                Some(_) => taken is Ok,
                None => taken matches Err(e) && e@ == LoginErrorView::HeaderParse,
            },
            names_distinct(final(self)@),
    {
        proof {
            use_type_invariant(&*self);
        }
        let cookie = match Cookie::parse(raw) {
            Some(cookie) => cookie,
            None => {
                return Err(LoginError::HeaderParse);
            },
        };
        // The entries leave the jar while they change.
        let mut entries: Vec<Cookie> = Vec::new();
        core::mem::swap(&mut self.entries, &mut entries);
        let at = position(&entries, &cookie.name);
        if at < entries.len() {
            entries.set(at, cookie);
        } else {
            entries.push(cookie);
        }
        assert(pairs(entries@) =~= store(old(self)@, cookie.name@, cookie.value@));
        proof {
            lemma_store_distinct(old(self)@, cookie.name@, cookie.value@);
        }
        self.entries = entries;
        Ok(())
    }

    /// The value that the jar holds for `name`, if any.
    pub fn get(&self, name: &str) -> (value: Option<String>)
        ensures
            match value {
                Some(value) => lookup(self@, name@) == Some(value@),
                None => lookup(self@, name@) is None,
            },
    {
        let name = name.to_owned();
        let at = position(&self.entries, &name);
        if at < self.entries.len() {
            Some(self.entries[at].value.clone())
        } else {
            None
        }
    }

    /// The `Cookie` header value that carries every cookie of the jar. An empty
    /// jar gives the empty text.
    pub fn to_string(&self) -> (header: String)
        ensures
            header@ == render(self@),
            names_distinct(self@),
    {
        proof {
            use_type_invariant(self);
            reveal_strlit("; ");
            reveal_strlit("=");
        }
        let mut header = String::new();
        let mut done: usize = 0;
        while done < self.entries.len()
            invariant
                done <= self.entries@.len(),
                header@ == render(self@.take(done as int)),
                "; "@ == seq![';', ' '],
                "="@ == seq!['='],
            decreases self.entries@.len() - done,
        {
            if done > 0 {
                header.append("; ");
            }
            header.append(self.entries[done].name.as_str());
            header.append("=");
            header.append(self.entries[done].value.as_str());
            assert(self@.take(done + 1).drop_last() =~= self@.take(done as int));
            done = done + 1;
        }
        assert(self@.take(done as int) =~= self@);
        header
    }
}

/// Looking a name up after a cookie has been set: the cookie's name gives the
/// new value, every other name what it gave before.
pub proof fn lemma_store_lookup(entries: Seq<(Seq<char>, Seq<char>)>, name: Seq<char>, value: Seq<char>, other: Seq<char>)
    ensures
        lookup(store(entries, name, value), other) == if other == name {
            Some(value)
        } else {
            lookup(entries, other)
        },
{
    let after = store(entries, name, value);
    let at = first_index(names(entries), name);
    let found = first_index(names(entries), other);
    lemma_first_index_is_first(names(entries), name);
    lemma_first_index_is_first(names(entries), other);
    // Setting a cookie changes no name that was held.
    assert forall|i: int| 0 <= i < entries.len() implies names(after)[i] == names(entries)[i] by {}
    if found < entries.len() || other == name {
        lemma_first_index(names(after), other, found);
    } else {
        lemma_first_index(names(after), other, after.len() as int);
    }
}

/// Values that do not set `name` leave what the jar holds for it.
pub proof fn lemma_added_all_untouched(entries: Seq<(Seq<char>, Seq<char>)>, headers: Seq<Seq<char>>, name: Seq<char>)
    requires
        forall|j: int| 0 <= j < headers.len() ==> !sets(#[trigger] headers[j], name),
    ensures
        lookup(added_all(entries, headers), name) == lookup(entries, name),
    decreases headers.len(),
{
    if headers.len() > 0 {
        let rest = headers.drop_first();
        if let Some((set, value)) = parse_set_cookie(headers[0]) {
            lemma_store_lookup(entries, set, value, name);
        }
        assert forall|j: int| 0 <= j < rest.len() implies !sets(#[trigger] rest[j], name) by {
            assert(rest[j] == headers[j + 1]);
        }
        lemma_added_all_untouched(added(entries, headers[0]), rest, name);
    }
}

/// The jar holds for a name the value that was set last.
pub proof fn lemma_added_all_latest(entries: Seq<(Seq<char>, Seq<char>)>, headers: Seq<Seq<char>>, name: Seq<char>, value: Seq<char>, last: int)
    requires
        0 <= last < headers.len(),
        parse_set_cookie(headers[last]) == Some((name, value)),
        forall|j: int| last < j < headers.len() ==> !sets(#[trigger] headers[j], name),
    ensures
        lookup(added_all(entries, headers), name) == Some(value),
    decreases last,
{
    let rest = headers.drop_first();
    if last == 0 {
        lemma_store_lookup(entries, name, value, name);
        assert forall|j: int| 0 <= j < rest.len() implies !sets(#[trigger] rest[j], name) by {
            assert(rest[j] == headers[j + 1]);
        }
        lemma_added_all_untouched(added(entries, headers[0]), rest, name);
    } else {
        assert forall|j: int| last - 1 < j < rest.len() implies !sets(#[trigger] rest[j], name) by {
            assert(rest[j] == headers[j + 1]);
        }
        lemma_added_all_latest(added(entries, headers[0]), rest, name, value, last - 1);
    }
}

/// A name that the jar holds stays in it.
pub proof fn lemma_added_all_keeps(entries: Seq<(Seq<char>, Seq<char>)>, headers: Seq<Seq<char>>, name: Seq<char>)
    requires
        lookup(entries, name) is Some,
    ensures
        lookup(added_all(entries, headers), name) is Some,
    decreases headers.len(),
{
    if headers.len() > 0 {
        if let Some((set, value)) = parse_set_cookie(headers[0]) {
            lemma_store_lookup(entries, set, value, name);
        }
        lemma_added_all_keeps(added(entries, headers[0]), headers.drop_first(), name);
    }
}

/// Taking values in leaves each name once.
pub proof fn lemma_added_all_distinct(entries: Seq<(Seq<char>, Seq<char>)>, headers: Seq<Seq<char>>)
    requires
        names_distinct(entries),
    ensures
        names_distinct(added_all(entries, headers)),
    decreases headers.len(),
{
    if headers.len() > 0 {
        if let Some((set, value)) = parse_set_cookie(headers[0]) {
            lemma_store_distinct(entries, set, value);
        }
        lemma_added_all_distinct(added(entries, headers[0]), headers.drop_first());
    }
}

/// Where every value sets a cookie, `merge` takes them all in.
pub proof fn lemma_merge_all(entries: Seq<(Seq<char>, Seq<char>)>, headers: Seq<Seq<char>>)
    requires
        merge(entries, headers).1,
    ensures
        merge(entries, headers).0 == added_all(entries, headers),
        forall|j: int| 0 <= j < headers.len() ==> parse_set_cookie(#[trigger] headers[j]) is Some,
    decreases headers.len(),
{
    if headers.len() > 0 {
        let rest = headers.drop_first();
        lemma_merge_all(added(entries, headers[0]), rest);
        assert forall|j: int| 0 <= j < headers.len() implies parse_set_cookie(#[trigger] headers[j]) is Some by {
            if j > 0 {
                assert(rest[j - 1] == headers[j]);
            }
        }
    }
}

/// What the jar holds for a name is one of its cookies.
pub proof fn lemma_lookup_entry(entries: Seq<(Seq<char>, Seq<char>)>, name: Seq<char>) -> (at: int)
    requires
        lookup(entries, name) is Some,
    ensures
        0 <= at < entries.len(),
        entries[at] == (name, lookup(entries, name)->0),
{
    let at = first_index(names(entries), name);
    lemma_first_index_is_first(names(entries), name);
    at
}

/// Each cookie of the jar stands in the header that the jar renders.
pub proof fn lemma_render_carries(entries: Seq<(Seq<char>, Seq<char>)>, k: int)
    requires
        0 <= k < entries.len(),
    ensures
        occurs(written(entries[k].0, entries[k].1), render(entries)),
    decreases entries.len(),
{
    let part = written(entries[k].0, entries[k].1);
    let whole = render(entries);
    if entries.len() == 1 {
        assert(whole.subrange(0, part.len() as int) =~= part);
        assert(stands_at(part, whole, 0));
    } else {
        let shorter = entries.drop_last();
        let head = render(shorter) + seq![';', ' '];
        let tail = written(entries.last().0, entries.last().1);
        assert(whole == head + tail);
        if k == entries.len() - 1 {
            assert(whole.subrange(head.len() as int, head.len() as int + part.len()) =~= part);
            assert(stands_at(part, whole, head.len() as int));
        } else {
            lemma_render_carries(shorter, k);
            let at = choose|at: int| stands_at(part, render(shorter), at);
            assert(whole.subrange(at, at + part.len()) =~= render(shorter).subrange(at, at + part.len()));
            assert(stands_at(part, whole, at));
        }
    }
}

} // verus!
