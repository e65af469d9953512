use vstd::hash_map::StringHashMap;
use vstd::prelude::*;

verus! {

/// What a link entry points at, as text: `None` for an entry without a value.
pub open spec fn target_text(target: Option<String>) -> Option<Seq<char>> {
    match target {
        Some(url) => Some(url@),
        None => None,
    }
}

/// The `links` object of a response: link names, each with a URL or with an
/// explicit empty value.
///
/// A name can be absent, present without a value, or present with a URL. The
/// three are kept apart: the view maps a name to `None` where the entry is
/// there but empty, and has no entry where the name is absent.
pub struct Links {
    entries: StringHashMap<Option<String>>,
}

impl View for Links {
    type V = Map<Seq<char>, Option<Seq<char>>>;

    closed spec fn view(&self) -> Map<Seq<char>, Option<Seq<char>>> {
        self.entries@.map_values(|target: Option<String>| target_text(target))
    }
}

impl Links {
    /// A links object without entries.
    pub fn new() -> (links: Links)
        ensures
            links@ == Map::<Seq<char>, Option<Seq<char>>>::empty(),
    {
        let links = Links { entries: StringHashMap::new() };
        assert(links@ =~= Map::<Seq<char>, Option<Seq<char>>>::empty());
        links
    }

    /// Sets the entry `name` to `target`, replacing an earlier entry of that
    /// name.
    pub fn insert(&mut self, name: String, target: Option<String>)
        ensures
            final(self)@ == old(self)@.insert(name@, target_text(target)),
    {
        self.entries.insert(name, target);
        assert(self@ =~= old(self)@.insert(name@, target_text(target)));
    }

    /// The entry `name`: `None` where the name is absent, `Some(None)` where
    /// it is present without a value, `Some(Some(url))` where it has one.
    pub fn get(&self, name: &str) -> (entry: Option<Option<String>>)
        ensures
            match entry {
                Some(target) => self@.contains_key(name@) && self@[name@] == target_text(target),
                None => !self@.contains_key(name@),
            },
    {
        match self.entries.get(name) {
            Some(target) => {
                match target {
                    Some(url) => Some(Some(url.clone())),
                    None => Some(None),
                }
            },
            None => None,
        }
    }
}

} // verus!
