//! Environment-variable overrides of a configuration document.
//!
//! The map is kept as the sequence of bindings in the order they were
//! applied; a later binding for a key shadows an earlier one.  Its
//! mathematical value is the resulting key-value [`Map`], and merging two
//! maps is union with the incoming side winning on common keys.

use vstd::prelude::*;

verus! {

/// The map described by a sequence of bindings, the last binding of a key
/// shadowing every earlier one.
pub open spec fn spec_bindings_map(s: Seq<(String, String)>) -> Map<Seq<char>, Seq<char>>
    decreases s.len(),
{
    if s.len() == 0 {
        Map::empty()
    } else {
        spec_bindings_map(s.drop_last()).insert(s.last().0@, s.last().1@)
    }
}

/// A set of environment variables to apply, keyed by variable name.
#[derive(Debug)]
pub struct EnvMap {
    bindings: Vec<(String, String)>,
}

impl View for EnvMap {
    type V = Map<Seq<char>, Seq<char>>;

    closed spec fn view(&self) -> Map<Seq<char>, Seq<char>> {
        spec_bindings_map(self.bindings@)
    }
}

impl Default for EnvMap {
    /// No variables at all.
    fn default() -> (r: Self)
        ensures
            r@ == Map::<Seq<char>, Seq<char>>::empty(),
    {
        EnvMap { bindings: Vec::new() }
    }
}

proof fn lemma_bindings_map_append(a: Seq<(String, String)>, b: Seq<(String, String)>)
    ensures
        spec_bindings_map(a + b) == spec_bindings_map(a).union_prefer_right(spec_bindings_map(b)),
    decreases b.len(),
{
    if b.len() == 0 {
        assert(a + b =~= a);
        assert(spec_bindings_map(a).union_prefer_right(Map::empty()) =~= spec_bindings_map(a));
    } else {
        lemma_bindings_map_append(a, b.drop_last());
        assert((a + b).drop_last() =~= a + b.drop_last());
        assert((a + b).last() == b.last());
        assert(spec_bindings_map(a).union_prefer_right(
            spec_bindings_map(b.drop_last()).insert(b.last().0@, b.last().1@),
        ) =~= spec_bindings_map(a).union_prefer_right(spec_bindings_map(b.drop_last())).insert(
            b.last().0@,
            b.last().1@,
        ));
    }
}

impl EnvMap {
    /// Bind `key` to `value`, shadowing any earlier binding of `key`.
    pub fn insert(&mut self, key: String, value: String)
        ensures
            final(self)@ == old(self)@.insert(key@, value@),
    {
        self.bindings.push((key, value));
        proof {
            assert(self.bindings@.drop_last() =~= old(self).bindings@);
        }
    }

    /// The bindings in application order; the last one for a key is the one
    /// in force.
    pub fn bindings(&self) -> (r: &Vec<(String, String)>)
        ensures
            spec_bindings_map(r@) == self@,
    {
        &self.bindings
    }

    /// A copy of this map, binding for binding.
    pub fn duplicate(&self) -> (r: Self)
        ensures
            r@ == self@,
    {
        let mut out: Vec<(String, String)> = Vec::new();
        let mut i: usize = 0;
        while i < self.bindings.len()
            invariant
                i <= self.bindings@.len(),
                out@ =~= self.bindings@.take(i as int),
            decreases self.bindings@.len() - i,
        {
            out.push((self.bindings[i].0.clone(), self.bindings[i].1.clone()));
            i = i + 1;
        }
        proof {
            assert(out@ =~= self.bindings@);
        }
        EnvMap { bindings: out }
    }

    /// The value in force for `key`, if any.
    pub fn get(&self, key: &String) -> (r: Option<&String>)
        ensures
            r matches Some(v) ==> self@.contains_key(key@) && v@ == self@[key@],
            r is None ==> !self@.contains_key(key@),
    {
        let mut i: usize = self.bindings.len();
        proof {
            assert(self.bindings@.take(self.bindings.len() as int) =~= self.bindings@);
        }
        while i > 0
            invariant
                i <= self.bindings.len(),
                self@.contains_key(key@) ==> spec_bindings_map(
                    self.bindings@.take(i as int),
                ).contains_key(key@) && spec_bindings_map(self.bindings@.take(i as int))[key@]
                    == self@[key@],
                !self@.contains_key(key@) ==> !spec_bindings_map(
                    self.bindings@.take(i as int),
                ).contains_key(key@),
            decreases i,
        {
            i = i - 1;
            proof {
                assert(self.bindings@.take(i as int + 1).drop_last() =~= self.bindings@.take(
                    i as int,
                ));
                assert(self.bindings@.take(i as int + 1).last() == self.bindings@[i as int]);
            }
            if self.bindings[i].0 == *key {
                return Some(&self.bindings[i].1);
            }
        }
        proof {
            assert(self.bindings@.take(0) =~= Seq::<(String, String)>::empty());
        }
        None
    }
}

/// Map union: the contents of `right` are folded into `left`; incoming keys
/// overwrite existing keys of the same name, all other keys are preserved.
pub fn extend(left: &mut EnvMap, right: EnvMap)
    ensures
        final(left)@ == old(left)@.union_prefer_right(right@),
{
    let mut incoming = right;
    proof {
        lemma_bindings_map_append(left.bindings@, incoming.bindings@);
    }
    left.bindings.append(&mut incoming.bindings);
}

} // verus!
