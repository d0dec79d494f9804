use vstd::prelude::*;
use crate::install::{subkey_path, subkey_path_of};

verus! {

/// A walk through a tree of registry keys as contracts see it.
pub struct WalkModel {
    /// The paths of the keys that were found and not yet handed out for their
    /// subkeys to be listed, in the order in which they were found.
    pub waiting: Seq<Seq<char>>,
    /// The path and the value of every hit so far, in the order of finding.
    pub results: Seq<(Seq<char>, Seq<char>)>,
}

/// The texts of a sequence of strings.
pub open spec fn texts_of(paths: Seq<String>) -> Seq<Seq<char>> {
    Seq::new(paths.len(), |i: int| paths[i]@)
}

/// The texts of a sequence of pairs of strings.
pub open spec fn pairs_of(pairs: Seq<(String, String)>) -> Seq<(Seq<char>, Seq<char>)> {
    Seq::new(pairs.len(), |i: int| (pairs[i].0@, pairs[i].1@))
}

/// The text of a value, where there is one.
pub open spec fn value_text(value: Option<String>) -> Option<Seq<char>> {
    match value {
        Some(v) => Some(v@),
        None => None,
    }
}

/// The walk after one subkey of `parent` was visited. A subkey that could not
/// be opened leaves no trace. One that could is put behind the keys that
/// wait, and it is a hit where its name matched and it has the value.
pub open spec fn after_visit(
    m: WalkModel,
    parent: Seq<char>,
    name: Seq<char>,
    opened: bool,
    matched: Option<bool>,
    value: Option<Seq<char>>,
) -> WalkModel {
    if !opened {
        m
    } else {
        WalkModel {
            waiting: m.waiting.push(subkey_path_of(parent, name)),
            results: if matched == Some(true) && value is Some {
                m.results.push((subkey_path_of(parent, name), value->Some_0))
            } else {
                m.results
            },
        }
    }
}

/// The hit that a visited subkey is: its path and its value where it could be
/// opened, its name matched and it has the value; else none.
pub open spec fn hit_of(
    parent: Seq<char>,
    name: Seq<char>,
    opened: bool,
    matched: Option<bool>,
    value: Option<Seq<char>>,
) -> Option<(Seq<char>, Seq<char>)> {
    if opened && matched == Some(true) && value is Some {
        Some((subkey_path_of(parent, name), value->Some_0))
    } else {
        None
    }
}

/// The texts of a pair of strings, where there is one.
pub open spec fn pair_text(pair: Option<(String, String)>) -> Option<(Seq<char>, Seq<char>)> {
    match pair {
        Some(p) => Some((p.0@, p.1@)),
        None => None,
    }
}

/// A breadth-first walk through a tree of registry keys. It decides which key
/// is listed next and what counts as a hit; its driver lists, opens and reads
/// the keys.
pub struct RegistryWalk {
    queue: Vec<String>,
    cursor: usize,
    results: Vec<(String, String)>,
}

impl View for RegistryWalk {
    type V = WalkModel;

    closed spec fn view(&self) -> WalkModel {
        WalkModel {
            waiting: texts_of(self.queue@).subrange(self.cursor as int, self.queue@.len() as int),
            results: pairs_of(self.results@),
        }
    }
}

impl RegistryWalk {
    /// The walk's invariant.
    pub closed spec fn wf(&self) -> bool {
        self.cursor <= self.queue@.len()
    }

    /// A walk that has found the root and nothing else.
    pub fn new(root_path: &str) -> (w: RegistryWalk)
        ensures
            w.wf(),
            w@.waiting == seq![root_path@],
            w@.results == Seq::<(Seq<char>, Seq<char>)>::empty(),
    {
        let mut queue: Vec<String> = Vec::new();
        queue.push(String::from_str(root_path));
        let w = RegistryWalk { queue, cursor: 0, results: Vec::new() };
        assert(w@.waiting =~= seq![root_path@]);
        assert(w@.results =~= Seq::<(Seq<char>, Seq<char>)>::empty());
        w
    }

    /// Hands out the key that has waited longest, for its subkeys to be listed
    /// and visited; nothing where no key waits, and the walk is over.
    pub fn next_key(&mut self) -> (r: Option<String>)
        requires
            old(self).wf(),
        ensures
            final(self).wf(),
            final(self)@.results == old(self)@.results,
            old(self)@.waiting.len() == 0 ==> r is None && final(self)@ == old(self)@,
            old(self)@.waiting.len() > 0 ==> r is Some && r->Some_0@ == old(self)@.waiting[0]
                && final(self)@.waiting == old(self)@.waiting.drop_first(),
    {
        if self.cursor < self.queue.len() {
            let path = self.queue[self.cursor].clone();
            self.cursor = self.cursor + 1;
            assert(self@.waiting =~= old(self)@.waiting.drop_first());
            Some(path)
        } else {
            None
        }
    }

    /// Takes in one subkey of a key that was handed out: whether it could be
    /// opened, whether its name matched the search, and its value where it
    /// has one. Hands back the hit that the subkey is, if it is one.
    pub fn visit(
        &mut self,
        parent: &str,
        name: &str,
        opened: bool,
        matched: Option<bool>,
        value: Option<String>,
    ) -> (hit: Option<(String, String)>)
        requires
            old(self).wf(),
        ensures
            final(self).wf(),
            final(self)@ == after_visit(
                old(self)@,
                parent@,
                name@,
                opened,
                matched,
                value_text(value),
            ),
            pair_text(hit) == hit_of(parent@, name@, opened, matched, value_text(value)),
    {
        let mut hit: Option<(String, String)> = None;
        if opened {
            let path = subkey_path(parent, name);
            match (matched, value) {
                (Some(true), Some(v)) => {
                    hit = Some((path.clone(), v.clone()));
                    self.results.push((path.clone(), v));
                },
                _ => {},
            }
            self.queue.push(path);
            assert(self@.waiting =~= old(self)@.waiting.push(
                subkey_path_of(parent@, name@),
            ));
            assert(self@.results =~= after_visit(
                old(self)@,
                parent@,
                name@,
                opened,
                matched,
                value_text(value),
            ).results);
        }
        hit
    }

    /// The hits of the walk so far, in the order of finding.
    pub fn results(self) -> (r: Vec<(String, String)>)
        ensures
            pairs_of(r@) == self@.results,
    {
        self.results
    }
}

} // verus!
