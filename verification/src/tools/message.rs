//! Values translated into several languages, with a designated default
//! language.

use vstd::prelude::*;

use crate::chars::str_eq;

verus! {

/// A `T` for each available language key, with a designated default key that
/// is always present.
#[derive(Debug)]
pub struct Translated<T> {
    contents: Vec<(String, T)>,
    default: String,
}

/// First match by language key, scanning the pairs from the front.
pub open spec fn lookup<T>(s: Seq<(String, T)>, k: Seq<char>) -> Option<T>
    decreases s.len(),
{
    if s.len() == 0 {
        None
    } else if s[0].0@ == k {
        Some(s[0].1)
    } else {
        lookup(s.drop_first(), k)
    }
}

/// Last match by language key, scanning the pairs from the back: the value
/// that survives when earlier pairs with the same key are overwritten.
pub open spec fn last_lookup<T>(s: Seq<(String, T)>, k: Seq<char>) -> Option<T>
    decreases s.len(),
{
    if s.len() == 0 {
        None
    } else if s.last().0@ == k {
        Some(s.last().1)
    } else {
        last_lookup(s.drop_last(), k)
    }
}

/// `last_lookup` returns the value of pair `i` when no later pair carries
/// the same key.
pub proof fn lemma_last_lookup_at<T>(s: Seq<(String, T)>, k: Seq<char>, i: int)
    requires
        0 <= i < s.len(),
        s[i].0@ == k,
        forall|j: int| i < j < s.len() ==> s[j].0@ != k,
    ensures
        last_lookup(s, k) == Some(s[i].1),
    decreases s.len(),
{
    if i < s.len() - 1 {
        lemma_last_lookup_at(s.drop_last(), k, i);
    }
}

/// `last_lookup` finds nothing for a key that no pair carries.
pub proof fn lemma_last_lookup_absent<T>(s: Seq<(String, T)>, k: Seq<char>)
    requires
        forall|j: int| 0 <= j < s.len() ==> s[j].0@ != k,
    ensures
        last_lookup(s, k) is None,
    decreases s.len(),
{
    if s.len() > 0 {
        lemma_last_lookup_absent(s.drop_last(), k);
    }
}

/// The value `done` or, where `done` has none, `rest` assigns to key `k`.
spec fn combined<T>(done: Seq<(String, T)>, rest: Seq<(String, T)>, k: Seq<char>) -> Option<T> {
    if lookup(done, k) is Some {
        lookup(done, k)
    } else {
        last_lookup(rest, k)
    }
}

/// Looking up in `s.push(p)` finds what `s` has, or else `p` when its key
/// matches.
proof fn lemma_lookup_push<T>(s: Seq<(String, T)>, p: (String, T), k: Seq<char>)
    ensures
        lookup(s.push(p), k) == if lookup(s, k) is Some {
            lookup(s, k)
        } else if p.0@ == k {
            Some(p.1)
        } else {
            None::<T>
        },
    decreases s.len(),
{
    if s.len() == 0 {
        assert(s.push(p)[0] == p);
        assert(s.push(p).drop_first() =~= Seq::<(String, T)>::empty());
        assert(lookup(Seq::<(String, T)>::empty(), k) is None);
    } else {
        assert(s.push(p)[0] == s[0]);
        assert(s.push(p).drop_first() =~= s.drop_first().push(p));
        lemma_lookup_push(s.drop_first(), p, k);
    }
}

/// A key that occurs in `s` is found by `last_lookup`.
proof fn lemma_last_lookup_present<T>(s: Seq<(String, T)>, i: int)
    requires
        0 <= i < s.len(),
    ensures
        last_lookup(s, s[i].0@) is Some,
    decreases s.len(),
{
    if s.last().0@ != s[i].0@ {
        lemma_last_lookup_present(s.drop_last(), i);
    }
}

impl<T> Translated<T> {
    /// The value stored for language key `k`, if any.
    pub closed spec fn spec_get(self, k: Seq<char>) -> Option<T> {
        lookup(self.contents@, k)
    }

    /// The default language key.
    pub closed spec fn spec_default_key(self) -> Seq<char> {
        self.default@
    }

    /// The value for key `k`, or the default language's value otherwise.
    pub open spec fn spec_get_or_default(self, k: Seq<char>) -> T {
        if self.spec_get(k) is Some {
            self.spec_get(k)->0
        } else {
            self.spec_get(self.spec_default_key())->0
        }
    }

    #[verifier::type_invariant]
    spec fn inv(self) -> bool {
        lookup(self.contents@, self.default@) is Some
    }

    /// Build a translation table from `(language, value)` pairs: the first
    /// pair names the default language, a later pair with an already seen
    /// language replaces the earlier value. No pairs give no table.
    pub fn from_pairs(pairs: Vec<(String, T)>) -> (r: Option<Translated<T>>)
        ensures
            r is Some <==> pairs@.len() > 0,
            r is Some ==> r->0.spec_default_key() == pairs@[0].0@,
            r is Some ==> forall|k: Seq<char>| r->0.spec_get(k) == last_lookup(pairs@, k),
    {
        let ghost orig = pairs@;
        if pairs.len() == 0 {
            return None;
        }
        let default: String = pairs[0].0.clone();
        let mut rest = pairs;
        let mut contents: Vec<(String, T)> = Vec::new();
        proof {
            assert(contents@ =~= Seq::<(String, T)>::empty());
        }
        while rest.len() > 0
            invariant
                forall|k: Seq<char>| #![auto] combined(contents@, rest@, k) == last_lookup(
                    orig,
                    k,
                ),
            decreases rest.len(),
        {
            let ghost pre_rest = rest@;
            let p = match rest.pop() {
                Some(p) => p,
                None => vstd::pervasive::unreached(),
            };
            proof {
                assert(pre_rest.drop_last() =~= rest@);
            }
            if contains_key(&contents, &p.0) {
                proof {
                    assert forall|k: Seq<char>| #![auto]
                        combined(contents@, rest@, k) == last_lookup(orig, k) by {
                        assert(pre_rest.last() == p);
                        if lookup(contents@, k) is None {
                            assert(p.0@ != k);
                        }
                    }
                }
            } else {
                let ghost pre_contents = contents@;
                contents.push(p);
                proof {
                    assert(contents@ =~= pre_contents.push(p));
                    assert forall|k: Seq<char>| #![auto]
                        combined(contents@, rest@, k) == last_lookup(orig, k) by {
                        lemma_lookup_push(pre_contents, p, k);
                        assert(pre_rest.last() == p);
                    }
                }
            }
        }
        proof {
            assert(rest@ =~= Seq::<(String, T)>::empty());
            assert(forall|k: Seq<char>| #![auto] lookup(contents@, k) == last_lookup(orig, k));
            lemma_last_lookup_present(orig, 0);
            assert(lookup(contents@, default@) is Some);
        }
        Some(Translated { contents, default })
    }

    /// The value for the default language.
    pub fn default(&self) -> (r: &T)
        ensures
            self.spec_get(self.spec_default_key()) == Some(*r),
    {
        proof {
            use_type_invariant(self);
        }
        let n = self.contents.len();
        let mut i: usize = 0;
        proof {
            assert(self.contents@.skip(0) =~= self.contents@);
        }
        while i < n
            invariant
                n == self.contents@.len(),
                i <= n,
                lookup(self.contents@.skip(i as int), self.default@) == lookup(
                    self.contents@,
                    self.default@,
                ),
                lookup(self.contents@, self.default@) is Some,
            decreases n - i,
        {
            let p = &self.contents[i];
            proof {
                assert(self.contents@.skip(i as int)[0] == self.contents@[i as int]);
                assert(self.contents@.skip(i as int).drop_first() =~= self.contents@.skip(
                    i as int + 1,
                ));
            }
            if str_eq(p.0.as_str(), self.default.as_str()) {
                return &p.1;
            }
            i = i + 1;
        }
        proof {
            assert(self.contents@.skip(n as int).len() == 0);
        }
        vstd::pervasive::unreached()
    }

    /// The value for language `key`, if one is stored.
    pub fn get(&self, key: &str) -> (r: Option<&T>)
        ensures
            match r {
                Some(v) => self.spec_get(key@) == Some(*v),
                None => self.spec_get(key@) is None,
            },
    {
        let n = self.contents.len();
        let mut i: usize = 0;
        proof {
            assert(self.contents@.skip(0) =~= self.contents@);
        }
        while i < n
            invariant
                n == self.contents@.len(),
                i <= n,
                lookup(self.contents@.skip(i as int), key@) == lookup(self.contents@, key@),
            decreases n - i,
        {
            let p = &self.contents[i];
            proof {
                assert(self.contents@.skip(i as int)[0] == self.contents@[i as int]);
                assert(self.contents@.skip(i as int).drop_first() =~= self.contents@.skip(
                    i as int + 1,
                ));
            }
            if str_eq(p.0.as_str(), key) {
                return Some(&p.1);
            }
            i = i + 1;
        }
        proof {
            assert(self.contents@.skip(n as int).len() == 0);
        }
        None
    }

    /// The value for language `key`, or the default language's value when
    /// `key` has none.
    pub fn get_or_default(&self, key: &str) -> (r: &T)
        ensures
            *r == self.spec_get_or_default(key@),
    {
        match self.get(key) {
            Some(v) => v,
            None => self.default(),
        }
    }
}

/// Whether some stored pair carries the language key `key`.
fn contains_key<T>(contents: &Vec<(String, T)>, key: &String) -> (r: bool)
    ensures
        r == (lookup(contents@, key@) is Some),
{
    let n = contents.len();
    let mut i: usize = 0;
    proof {
        assert(contents@.skip(0) =~= contents@);
    }
    while i < n
        invariant
            n == contents@.len(),
            i <= n,
            lookup(contents@.skip(i as int), key@) == lookup(contents@, key@),
        decreases n - i,
    {
        let p = &contents[i];
        proof {
            assert(contents@.skip(i as int)[0] == contents@[i as int]);
            assert(contents@.skip(i as int).drop_first() =~= contents@.skip(i as int + 1));
        }
        if str_eq(p.0.as_str(), key.as_str()) {
            return true;
        }
        i = i + 1;
    }
    proof {
        assert(contents@.skip(n as int).len() == 0);
    }
    false
}

/// A link with a display name.
#[derive(Debug, Copy, Clone)]
pub struct Link<S> {
    /// The name to display for the link.
    pub name: S,
    /// The link's target.
    pub url: S,
}

impl<S> Link<S> {
    /// The name to display.
    pub fn name(&self) -> (r: &S)
        ensures
            *r == self.name,
    {
        &self.name
    }

    /// The link's target.
    pub fn url(&self) -> (r: &S)
        ensures
            *r == self.url,
    {
        &self.url
    }
}

impl<S> From<(S, S)> for Link<S> {
    /// Build a link from a `(name, url)` pair.
    fn from(pair: (S, S)) -> (r: Self) {
        Link { name: pair.0, url: pair.1 }
    }
}

impl<S> vstd::std_specs::convert::FromSpecImpl<(S, S)> for Link<S> {
    open spec fn obeys_from_spec() -> bool {
        true
    }

    open spec fn from_spec(pair: (S, S)) -> Self {
        Link { name: pair.0, url: pair.1 }
    }
}

} // verus!
