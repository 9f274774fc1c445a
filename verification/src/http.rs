//! Plain settings and form fields of the HTTP client that runs its
//! requests through the reactor.

use vstd::prelude::*;

verus! {

/// How many requests run side by side unless the caller says otherwise.
pub const MAX_CONCURRENCY: usize = 16;

/// What the client keeps of its configuration once it is built.
pub struct HttpClientConfigEx {
    /// How many requests run side by side, at least one.
    pub max_concurrency: usize,
}

impl Default for HttpClientConfigEx {
    fn default() -> (r: Self)
        ensures
            r.max_concurrency == MAX_CONCURRENCY,
    {
        HttpClientConfigEx { max_concurrency: MAX_CONCURRENCY }
    }
}

impl HttpClientConfigEx {
    /// Sets how many requests run side by side. Nothing below one is taken.
    pub fn concurrency(&mut self, max_concurrency: u32)
        ensures
            final(self).max_concurrency == if max_concurrency == 0 {
                1
            } else {
                max_concurrency as usize
            },
    {
        self.max_concurrency = if max_concurrency == 0 {
            1
        } else {
            max_concurrency as usize
        };
    }
}

/// What the client keeps of its configuration once it is built.
pub struct HttpClientRuntimeConfig {
    /// Whether requests run in the order in which they were sent.
    pub guarantee_order: bool,
}

impl Default for HttpClientRuntimeConfig {
    fn default() -> (r: Self)
        ensures
            r.guarantee_order,
    {
        HttpClientRuntimeConfig { guarantee_order: true }
    }
}

/// The fields of a form by name. A name has one value: the last one set.
pub struct HttpForm {
    form: Vec<(String, String)>,
}

/// The fields that `pairs` hold, by name.
pub open spec fn fields_of(pairs: Seq<(String, String)>) -> Map<Seq<char>, Seq<char>> {
    Map::new(
        |name: Seq<char>| exists|i: int| 0 <= i < pairs.len() && pairs[i].0@ == name,
        |name: Seq<char>| pairs[choose|i: int| 0 <= i < pairs.len() && pairs[i].0@ == name].1@,
    )
}

/// Whether no name occurs twice in `pairs`.
pub open spec fn names_differ(pairs: Seq<(String, String)>) -> bool {
    forall|i: int, j: int| 0 <= i < j < pairs.len() ==> pairs[i].0@ != pairs[j].0@
}

impl View for HttpForm {
    type V = Map<Seq<char>, Seq<char>>;

    /// The fields by name.
    closed spec fn view(&self) -> Map<Seq<char>, Seq<char>> {
        fields_of(self.form@)
    }
}

impl Default for HttpForm {
    fn default() -> (r: Self)
        ensures
            r.wf(),
            r@ == Map::<Seq<char>, Seq<char>>::empty(),
    {
        let r = HttpForm { form: Vec::new() };
        assert(r@ =~= Map::<Seq<char>, Seq<char>>::empty());
        r
    }
}

impl HttpForm {
    /// No name is held twice.
    pub closed spec fn wf(&self) -> bool {
        names_differ(self.form@)
    }

    /// Hands the fields out, each name once, and starts afresh.
    pub fn build(&mut self) -> (r: Vec<(String, String)>)
        requires
            old(self).wf(),
        ensures
            final(self).wf(),
            final(self)@ == Map::<Seq<char>, Seq<char>>::empty(),
            fields_of(r@) == old(self)@,
            names_differ(r@),
    {
        let mut out: Vec<(String, String)> = Vec::new();
        std::mem::swap(&mut self.form, &mut out);
        assert(self@ =~= Map::<Seq<char>, Seq<char>>::empty());
        out
    }

    fn position(&self, name: &String) -> (r: Option<usize>)
        ensures
            match r {
                Some(at) => at < self.form@.len() && self.form@[at as int].0@ == name@,
                None => forall|j: int| 0 <= j < self.form@.len() ==> self.form@[j].0@ != name@,
            },
    {
        let mut at: usize = 0;
        while at < self.form.len()
            invariant
                at <= self.form@.len(),
                forall|j: int| 0 <= j < at ==> self.form@[j].0@ != name@,
            decreases self.form@.len() - at,
        {
            if self.form[at].0 == *name {
                return Some(at);
            }
            at += 1;
        }
        None
    }

    /// Sets the field `name` to `val`.
    pub fn field(&mut self, name: String, val: String)
        requires
            old(self).wf(),
        ensures
            final(self).wf(),
            final(self)@ == old(self)@.insert(name@, val@),
    {
        let ghost before = self.form@;
        let at = match self.position(&name) {
            Some(at) => {
                self.form.set(at, (name, val));
                at
            },
            None => {
                let at = self.form.len();
                self.form.push((name, val));
                at
            },
        };
        proof {
            let after = self.form@;
            let a = at as int;
            assert(after[a].0@ == name@ && after[a].1@ == val@);
            assert forall|i: int| 0 <= i < after.len() && i != a implies i < before.len()
                && after[i] == before[i] && before[i].0@ != name@ by {
                if a < before.len() {
                    assert(before[a].0@ == name@);
                }
            }
            assert forall|n: Seq<char>| fields_of(after).contains_key(n) <==> fields_of(
                before,
            ).insert(name@, val@).contains_key(n) by {
                if fields_of(before).contains_key(n) && n != name@ {
                    let i = choose|i: int| 0 <= i < before.len() && before[i].0@ == n;
                    assert(after[i].0@ == n);
                }
            }
            assert forall|n: Seq<char>| fields_of(after).contains_key(n) implies fields_of(
                after,
            )[n] == fields_of(before).insert(name@, val@)[n] by {
                let i = choose|i: int| 0 <= i < after.len() && after[i].0@ == n;
                if n != name@ {
                    let j = choose|j: int| 0 <= j < before.len() && before[j].0@ == n;
                    assert(after[j].0@ == n);
                    assert(i == j);
                } else {
                    assert(i == a);
                }
            }
            assert(self@ =~= old(self)@.insert(name@, val@));
        }
    }
}

} // verus!
