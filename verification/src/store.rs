//! The persisted multi-scheme store: a most-recently-used scheme name and
//! an ordered list of named schemes, with the mutation rules for creating
//! and deleting schemes and adding extensions, and the shell export line.

use vstd::prelude::*;

use crate::colours::ColourEntry;
use crate::colours::Effects;
use crate::scheme::{
    colourless_entry, default_scheme, scheme_code, with_pushed_extension, LsColours, SchemeV,
};

verus! {

/// The mathematical value of the store.
#[verifier::ext_equal]
pub ghost struct StoreV {
    pub most_recent: Seq<char>,
    pub schemes: Seq<(Seq<char>, SchemeV)>,
}

/// The store as persisted: the most-recently-used scheme name (which may
/// refer to a scheme deleted since) and the ordered list of named schemes.
#[derive(Debug, Clone)]
pub struct SaveFile {
    pub most_recent: String,
    pub schemes: Vec<(String, LsColours)>,
}

impl View for SaveFile {
    type V = StoreV;

    open spec fn view(&self) -> StoreV {
        StoreV {
            most_recent: self.most_recent@,
            schemes: self.schemes@.map_values(|p: (String, LsColours)| (p.0@, p.1@)),
        }
    }
}

/// Whether some scheme in the list carries this exact name.
pub open spec fn contains_name(schemes: Seq<(Seq<char>, SchemeV)>, name: Seq<char>) -> bool {
    exists|i: int| 0 <= i < schemes.len() && schemes[i].0 == name
}

/// Whether the scheme names in the list are pairwise distinct.
pub open spec fn names_unique(schemes: Seq<(Seq<char>, SchemeV)>) -> bool {
    forall|i: int, j: int|
        0 <= i < j < schemes.len() ==> #[trigger] schemes[i].0 != #[trigger] schemes[j].0
}

impl SaveFile {
    /// The store a session starts from when nothing was persisted yet.
    pub fn new() -> (r: Self)
        ensures
            r@.most_recent == Seq::<char>::empty(),
            r@.schemes == Seq::<(Seq<char>, SchemeV)>::empty(),
    {
        let r = SaveFile { most_recent: String::new(), schemes: Vec::new() };
        proof {
            assert(r@.schemes =~= Seq::<(Seq<char>, SchemeV)>::empty());
        }
        r
    }

    /// Finds the first scheme carrying this name.
    pub fn find_scheme(&self, name: &String) -> (r: Option<usize>)
        ensures
            match r {
                Some(i) => i < self@.schemes.len() && self@.schemes[i as int].0 == name@ && forall|
                    j: int,
                |
                    0 <= j < i ==> #[trigger] self@.schemes[j].0 != name@,
                None => !contains_name(self@.schemes, name@),
            },
    {
        let mut i: usize = 0;
        while i < self.schemes.len()
            invariant
                i <= self@.schemes.len(),
                forall|j: int| 0 <= j < i ==> #[trigger] self@.schemes[j].0 != name@,
            decreases self@.schemes.len() - i,
        {
            proof {
                assert(self@.schemes[i as int].0 == self.schemes@[i as int].0@);
            }
            if self.schemes[i].0 == *name {
                return Some(i);
            }
            i += 1;
        }
        None
    }

    /// Creates a scheme with the default colours under this name and
    /// appends it to the list. The creation is rejected, leaving the store
    /// unchanged, exactly when the name is empty or a scheme of the same
    /// name already exists.
    pub fn create_scheme(&mut self, name: String) -> (created: bool)
        ensures
            created == (name@.len() > 0 && !contains_name(old(self)@.schemes, name@)),
            created ==> final(self)@.schemes == old(self)@.schemes.push((name@, default_scheme()))
                && final(self)@.most_recent == old(self)@.most_recent,
            !created ==> final(self)@ == old(self)@,
            names_unique(old(self)@.schemes) ==> names_unique(final(self)@.schemes),
    {
        if name.as_str().unicode_len() == 0 {
            return false;
        }
        if self.find_scheme(&name).is_some() {
            return false;
        }
        let ghost n = name@;
        let ghost pre = self@.schemes;
        self.schemes.push((name, LsColours::default()));
        proof {
            let post = final(self)@.schemes;
            assert(post =~= pre.push((n, default_scheme())));
            if names_unique(pre) {
                assert forall|i: int, j: int|
                    0 <= i < j < post.len() implies #[trigger] post[i].0 != #[trigger] post[j].0 by {
                    if j == post.len() - 1 {
                        assert(!contains_name(pre, n));
                        assert(pre[i].0 != n);
                    }
                }
            }
        }
        true
    }

    /// Removes the scheme at this position. A caller that had this scheme
    /// open must clear its open reference itself; the store does not track
    /// which scheme is open.
    pub fn delete_scheme(&mut self, index: usize)
        requires
            index < old(self)@.schemes.len(),
        ensures
            final(self)@.schemes == old(self)@.schemes.remove(index as int),
            final(self)@.most_recent == old(self)@.most_recent,
    {
        self.schemes.remove(index);
        proof {
            assert(final(self)@.schemes =~= old(self)@.schemes.remove(index as int));
        }
    }

    /// Appends an extension with the colourless default entry to the
    /// scheme at this position. The addition is rejected, leaving the
    /// store unchanged, exactly when the name is empty or collides with an
    /// existing *scheme* name: the uniqueness rule deliberately checks
    /// scheme names, not the target scheme's own extension names.
    pub fn add_extension(&mut self, scheme_index: usize, name: String) -> (added: bool)
        requires
            scheme_index < old(self)@.schemes.len(),
        ensures
            added == (name@.len() > 0 && !contains_name(old(self)@.schemes, name@)),
            added ==> final(self)@.schemes == old(self)@.schemes.update(
                scheme_index as int,
                (
                    old(self)@.schemes[scheme_index as int].0,
                    with_pushed_extension(
                        old(self)@.schemes[scheme_index as int].1,
                        name@,
                        colourless_entry(),
                    ),
                ),
            ) && final(self)@.most_recent == old(self)@.most_recent,
            !added ==> final(self)@ == old(self)@,
    {
        if name.as_str().unicode_len() == 0 {
            return false;
        }
        if self.find_scheme(&name).is_some() {
            return false;
        }
        let ghost n = name@;
        let entry = ColourEntry::new(Effects::Default, None, None);
        let pair = &mut self.schemes[scheme_index];
        pair.1.push_extension(name, entry);
        proof {
            assert(final(self)@.schemes =~= old(self)@.schemes.update(
                scheme_index as int,
                (
                    old(self)@.schemes[scheme_index as int].0,
                    with_pushed_extension(
                        old(self)@.schemes[scheme_index as int].1,
                        n,
                        colourless_entry(),
                    ),
                ),
            ));
        }
        true
    }
}

/// The shell line that sets `LS_COLORS` to the encoding of this scheme.
pub fn env_command(colours: &LsColours) -> (r: String)
    ensures
        r@ == "export LS_COLORS='"@ + scheme_code(colours@) + "'"@,
{
    let mut out = String::new();
    out.append("export LS_COLORS='");
    out.append(colours.parse().as_str());
    out.append("'");
    proof {
        assert(out@ =~= "export LS_COLORS='"@ + scheme_code(colours@) + "'"@);
    }
    out
}

} // verus!
