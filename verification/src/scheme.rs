//! A colour scheme: one colour entry for each of the 18 fixed file-type
//! slots, plus an ordered list of per-extension overrides, and the
//! deterministic encoding of a whole scheme into the colon-separated
//! `key=codes` wire format that `ls`-compatible tools consume.

use vstd::prelude::*;

use crate::colours::{
    entry_code, is_digit_char, lemma_entry_code_wire_shape, ColourEntry, Effects, TerminalColour,
};

verus! {

/// The mathematical value of a scheme: the 18 fixed slots and the ordered
/// extension list with its names abstracted to character sequences.
#[verifier::ext_equal]
pub ghost struct SchemeV {
    pub norm: ColourEntry,
    pub rs: ColourEntry,
    pub file: ColourEntry,
    pub dir: ColourEntry,
    pub link: ColourEntry,
    pub pipe: ColourEntry,
    pub door: ColourEntry,
    pub block: ColourEntry,
    pub character: ColourEntry,
    pub orphan: ColourEntry,
    pub sock: ColourEntry,
    pub setuid: ColourEntry,
    pub setgid: ColourEntry,
    pub sticky_other_writable: ColourEntry,
    pub other_writable: ColourEntry,
    pub sticky: ColourEntry,
    pub executable: ColourEntry,
    pub missing: ColourEntry,
    pub extensions: Seq<(Seq<char>, ColourEntry)>,
}

/// A named colour assignment for every fixed file-type slot, plus zero or
/// more extension overrides in insertion order.
#[derive(Debug, Clone, PartialEq)]
pub struct LsColours {
    pub norm: ColourEntry,
    pub rs: ColourEntry,
    pub file: ColourEntry,
    pub dir: ColourEntry,
    pub link: ColourEntry,
    pub pipe: ColourEntry,
    pub door: ColourEntry,
    pub block: ColourEntry,
    pub character: ColourEntry,
    pub orphan: ColourEntry,
    pub sock: ColourEntry,
    pub setuid: ColourEntry,
    pub setgid: ColourEntry,
    pub sticky_other_writable: ColourEntry,
    pub other_writable: ColourEntry,
    pub sticky: ColourEntry,
    pub executable: ColourEntry,
    pub missing: ColourEntry,
    pub extensions: Vec<(String, ColourEntry)>,
}

impl View for LsColours {
    type V = SchemeV;

    open spec fn view(&self) -> SchemeV {
        SchemeV {
            norm: self.norm,
            rs: self.rs,
            file: self.file,
            dir: self.dir,
            link: self.link,
            pipe: self.pipe,
            door: self.door,
            block: self.block,
            character: self.character,
            orphan: self.orphan,
            sock: self.sock,
            setuid: self.setuid,
            setgid: self.setgid,
            sticky_other_writable: self.sticky_other_writable,
            other_writable: self.other_writable,
            sticky: self.sticky,
            executable: self.executable,
            missing: self.missing,
            extensions: self.extensions@.map_values(
                |p: (String, ColourEntry)| (p.0@, p.1),
            ),
        }
    }
}

/// The entry a new extension starts with: default effect, no colours.
pub open spec fn colourless_entry() -> ColourEntry {
    ColourEntry { effects: Effects::Default, fg: None, bg: None }
}

/// The scheme a newly created scheme starts with.
pub open spec fn default_scheme() -> SchemeV {
    SchemeV {
        norm: ColourEntry { effects: Effects::Default, fg: Some(TerminalColour::White), bg: None },
        rs: ColourEntry { effects: Effects::Default, fg: Some(TerminalColour::White), bg: None },
        file: ColourEntry {
            effects: Effects::Default,
            fg: Some(TerminalColour::LightBlue),
            bg: None,
        },
        dir: ColourEntry { effects: Effects::Bold, fg: Some(TerminalColour::Blue), bg: None },
        link: ColourEntry { effects: Effects::Default, fg: Some(TerminalColour::Gray), bg: None },
        pipe: ColourEntry {
            effects: Effects::Default,
            fg: Some(TerminalColour::LightPurple),
            bg: None,
        },
        door: ColourEntry {
            effects: Effects::Default,
            fg: Some(TerminalColour::Purple),
            bg: None,
        },
        block: ColourEntry {
            effects: Effects::Default,
            fg: Some(TerminalColour::Yellow),
            bg: None,
        },
        character: ColourEntry {
            effects: Effects::Bold,
            fg: Some(TerminalColour::Yellow),
            bg: None,
        },
        orphan: ColourEntry { effects: Effects::Default, fg: Some(TerminalColour::Red), bg: None },
        sock: ColourEntry { effects: Effects::Bold, fg: Some(TerminalColour::Orange), bg: None },
        setuid: ColourEntry {
            effects: Effects::Default,
            fg: Some(TerminalColour::Blue),
            bg: None,
        },
        setgid: ColourEntry {
            effects: Effects::Default,
            fg: Some(TerminalColour::Blue),
            bg: None,
        },
        sticky_other_writable: ColourEntry {
            effects: Effects::Default,
            fg: Some(TerminalColour::Blue),
            bg: None,
        },
        other_writable: ColourEntry {
            effects: Effects::Default,
            fg: Some(TerminalColour::LightBlue),
            bg: None,
        },
        sticky: ColourEntry {
            effects: Effects::Bold,
            fg: Some(TerminalColour::LightBlue),
            bg: None,
        },
        executable: ColourEntry {
            effects: Effects::Default,
            fg: Some(TerminalColour::Green),
            bg: None,
        },
        missing: ColourEntry {
            effects: Effects::Default,
            fg: Some(TerminalColour::Red),
            bg: None,
        },
        extensions: Seq::empty(),
    }
}

/// The encoding of the 18 fixed slots, in their fixed key order, joined
/// with `:`.
pub open spec fn fixed_code(v: SchemeV) -> Seq<char> {
    "no="@ + entry_code(v.norm) + ":rs="@ + entry_code(v.rs) + ":fi="@ + entry_code(v.file)
        + ":di="@ + entry_code(v.dir) + ":ln="@ + entry_code(v.link) + ":pi="@ + entry_code(v.pipe)
        + ":do="@ + entry_code(v.door) + ":bd="@ + entry_code(v.block) + ":cd="@ + entry_code(
        v.character,
    ) + ":or="@ + entry_code(v.orphan) + ":so="@ + entry_code(v.sock) + ":su="@ + entry_code(
        v.setuid,
    ) + ":sg="@ + entry_code(v.setgid) + ":tw="@ + entry_code(v.sticky_other_writable) + ":ow="@
        + entry_code(v.other_writable) + ":st="@ + entry_code(v.sticky) + ":ex="@ + entry_code(
        v.executable,
    ) + ":mi="@ + entry_code(v.missing)
}

/// The segment one extension contributes: `:*name=codes`.
pub open spec fn ext_seg(p: (Seq<char>, ColourEntry)) -> Seq<char> {
    ":*"@ + p.0 + "="@ + entry_code(p.1)
}

/// The segments all extensions contribute, in stored order.
pub open spec fn exts_code(exts: Seq<(Seq<char>, ColourEntry)>) -> Seq<char>
    decreases exts.len(),
{
    if exts.len() == 0 {
        Seq::empty()
    } else {
        exts_code(exts.drop_last()) + ext_seg(exts.last())
    }
}

/// The encoding of a whole scheme: the fixed slots, then the extensions.
pub open spec fn scheme_code(v: SchemeV) -> Seq<char> {
    fixed_code(v) + exts_code(v.extensions)
}

impl LsColours {
    /// Renders the whole scheme in the wire form consumed by
    /// `ls`-compatible tools: the 18 fixed `key=codes` segments in their
    /// fixed order, then one `*name=codes` segment per extension, all
    /// joined with `:` and with no leading or trailing separator.
    pub fn parse(&self) -> (r: String)
        ensures
            r@ == scheme_code(self@),
    {
        let mut out = String::new();
        out.append("no=");
        out.append(self.norm.parse().as_str());
        out.append(":rs=");
        out.append(self.rs.parse().as_str());
        out.append(":fi=");
        out.append(self.file.parse().as_str());
        out.append(":di=");
        out.append(self.dir.parse().as_str());
        out.append(":ln=");
        out.append(self.link.parse().as_str());
        out.append(":pi=");
        out.append(self.pipe.parse().as_str());
        out.append(":do=");
        out.append(self.door.parse().as_str());
        out.append(":bd=");
        out.append(self.block.parse().as_str());
        out.append(":cd=");
        out.append(self.character.parse().as_str());
        out.append(":or=");
        out.append(self.orphan.parse().as_str());
        out.append(":so=");
        out.append(self.sock.parse().as_str());
        out.append(":su=");
        out.append(self.setuid.parse().as_str());
        out.append(":sg=");
        out.append(self.setgid.parse().as_str());
        out.append(":tw=");
        out.append(self.sticky_other_writable.parse().as_str());
        out.append(":ow=");
        out.append(self.other_writable.parse().as_str());
        out.append(":st=");
        out.append(self.sticky.parse().as_str());
        out.append(":ex=");
        out.append(self.executable.parse().as_str());
        out.append(":mi=");
        out.append(self.missing.parse().as_str());
        proof {
            assert(out@ =~= fixed_code(self@));
        }
        let mut i: usize = 0;
        while i < self.extensions.len()
            invariant
                i <= self.extensions.len(),
                out@ == fixed_code(self@) + exts_code(self@.extensions.take(i as int)),
            decreases self.extensions.len() - i,
        {
            out.append(":*");
            out.append(self.extensions[i].0.as_str());
            out.append("=");
            out.append(self.extensions[i].1.parse().as_str());
            proof {
                let exts = self@.extensions;
                assert(exts[i as int] == (self.extensions@[i as int].0@,
                self.extensions@[i as int].1));
                assert(exts.take(i + 1).drop_last() =~= exts.take(i as int));
                assert(exts.take(i + 1).last() == exts[i as int]);
                assert(out@ =~= fixed_code(self@) + exts_code(exts.take(i + 1)));
            }
            i += 1;
        }
        proof {
            assert(self@.extensions.take(self.extensions.len() as int) =~= self@.extensions);
        }
        out
    }
}

/// One of the 18 fixed file-type slots, in the order the editor lists
/// them.
#[derive(Debug, Clone, Copy, PartialEq, Eq, Structural)]
pub enum SlotKind {
    Normal,
    File,
    Directory,
    Symlink,
    Pipe,
    Door,
    Block,
    Character,
    OrphanedSymlink,
    Socket,
    SetUid,
    SetGid,
    StickyOtherWritable,
    OtherWritable,
    Sticky,
    Executable,
    Missing,
    EndCode,
}

/// The entry a fixed slot holds.
pub open spec fn slot_entry(v: SchemeV, k: SlotKind) -> ColourEntry {
    match k {
        SlotKind::Normal => v.norm,
        SlotKind::File => v.file,
        SlotKind::Directory => v.dir,
        SlotKind::Symlink => v.link,
        SlotKind::Pipe => v.pipe,
        SlotKind::Door => v.door,
        SlotKind::Block => v.block,
        SlotKind::Character => v.character,
        SlotKind::OrphanedSymlink => v.orphan,
        SlotKind::Socket => v.sock,
        SlotKind::SetUid => v.setuid,
        SlotKind::SetGid => v.setgid,
        SlotKind::StickyOtherWritable => v.sticky_other_writable,
        SlotKind::OtherWritable => v.other_writable,
        SlotKind::Sticky => v.sticky,
        SlotKind::Executable => v.executable,
        SlotKind::Missing => v.missing,
        SlotKind::EndCode => v.rs,
    }
}

/// The scheme with one fixed slot replaced.
pub open spec fn with_slot(v: SchemeV, k: SlotKind, e: ColourEntry) -> SchemeV {
    match k {
        SlotKind::Normal => SchemeV { norm: e, ..v },
        SlotKind::File => SchemeV { file: e, ..v },
        SlotKind::Directory => SchemeV { dir: e, ..v },
        SlotKind::Symlink => SchemeV { link: e, ..v },
        SlotKind::Pipe => SchemeV { pipe: e, ..v },
        SlotKind::Door => SchemeV { door: e, ..v },
        SlotKind::Block => SchemeV { block: e, ..v },
        SlotKind::Character => SchemeV { character: e, ..v },
        SlotKind::OrphanedSymlink => SchemeV { orphan: e, ..v },
        SlotKind::Socket => SchemeV { sock: e, ..v },
        SlotKind::SetUid => SchemeV { setuid: e, ..v },
        SlotKind::SetGid => SchemeV { setgid: e, ..v },
        SlotKind::StickyOtherWritable => SchemeV { sticky_other_writable: e, ..v },
        SlotKind::OtherWritable => SchemeV { other_writable: e, ..v },
        SlotKind::Sticky => SchemeV { sticky: e, ..v },
        SlotKind::Executable => SchemeV { executable: e, ..v },
        SlotKind::Missing => SchemeV { missing: e, ..v },
        SlotKind::EndCode => SchemeV { rs: e, ..v },
    }
}

/// The scheme with the entry of one extension replaced, its name kept.
pub open spec fn with_extension_entry(v: SchemeV, j: int, e: ColourEntry) -> SchemeV {
    SchemeV { extensions: v.extensions.update(j, (v.extensions[j].0, e)), ..v }
}

/// The scheme with one extension appended.
pub open spec fn with_pushed_extension(v: SchemeV, name: Seq<char>, e: ColourEntry) -> SchemeV {
    SchemeV { extensions: v.extensions.push((name, e)), ..v }
}

/// The scheme with one extension removed.
pub open spec fn with_removed_extension(v: SchemeV, j: int) -> SchemeV {
    SchemeV { extensions: v.extensions.remove(j), ..v }
}

impl LsColours {
    /// Reads the entry of one fixed slot.
    pub fn get_slot(&self, k: SlotKind) -> (r: ColourEntry)
        ensures
            r == slot_entry(self@, k),
    {
        match k {
            SlotKind::Normal => self.norm,
            SlotKind::File => self.file,
            SlotKind::Directory => self.dir,
            SlotKind::Symlink => self.link,
            SlotKind::Pipe => self.pipe,
            SlotKind::Door => self.door,
            SlotKind::Block => self.block,
            SlotKind::Character => self.character,
            SlotKind::OrphanedSymlink => self.orphan,
            SlotKind::Socket => self.sock,
            SlotKind::SetUid => self.setuid,
            SlotKind::SetGid => self.setgid,
            SlotKind::StickyOtherWritable => self.sticky_other_writable,
            SlotKind::OtherWritable => self.other_writable,
            SlotKind::Sticky => self.sticky,
            SlotKind::Executable => self.executable,
            SlotKind::Missing => self.missing,
            SlotKind::EndCode => self.rs,
        }
    }

    /// Writes the entry of one fixed slot.
    pub fn set_slot(&mut self, k: SlotKind, e: ColourEntry)
        ensures
            final(self)@ == with_slot(old(self)@, k, e),
    {
        match k {
            SlotKind::Normal => self.norm = e,
            SlotKind::File => self.file = e,
            SlotKind::Directory => self.dir = e,
            SlotKind::Symlink => self.link = e,
            SlotKind::Pipe => self.pipe = e,
            SlotKind::Door => self.door = e,
            SlotKind::Block => self.block = e,
            SlotKind::Character => self.character = e,
            SlotKind::OrphanedSymlink => self.orphan = e,
            SlotKind::Socket => self.sock = e,
            SlotKind::SetUid => self.setuid = e,
            SlotKind::SetGid => self.setgid = e,
            SlotKind::StickyOtherWritable => self.sticky_other_writable = e,
            SlotKind::OtherWritable => self.other_writable = e,
            SlotKind::Sticky => self.sticky = e,
            SlotKind::Executable => self.executable = e,
            SlotKind::Missing => self.missing = e,
            SlotKind::EndCode => self.rs = e,
        }
        proof {
            assert(final(self)@ =~= with_slot(old(self)@, k, e));
        }
    }

    /// Reads the entry of the extension at one position.
    pub fn get_extension_entry(&self, j: usize) -> (r: ColourEntry)
        requires
            j < self@.extensions.len(),
        ensures
            r == self@.extensions[j as int].1,
    {
        self.extensions[j].1
    }

    /// Writes the entry of the extension at one position, keeping its name.
    pub fn set_extension_entry(&mut self, j: usize, e: ColourEntry)
        requires
            j < old(self)@.extensions.len(),
        ensures
            final(self)@ == with_extension_entry(old(self)@, j as int, e),
    {
        self.extensions[j].1 = e;
        proof {
            assert(final(self)@.extensions =~= with_extension_entry(
                old(self)@,
                j as int,
                e,
            ).extensions);
            assert(final(self)@ =~= with_extension_entry(old(self)@, j as int, e));
        }
    }

    /// Appends one extension.
    pub fn push_extension(&mut self, name: String, e: ColourEntry)
        ensures
            final(self)@ == with_pushed_extension(old(self)@, name@, e),
    {
        let ghost n = name@;
        self.extensions.push((name, e));
        proof {
            assert(final(self)@.extensions =~= old(self)@.extensions.push((n, e)));
            assert(final(self)@ =~= with_pushed_extension(old(self)@, n, e));
        }
    }

    /// Removes the extension at one position.
    pub fn remove_extension(&mut self, j: usize)
        requires
            j < old(self)@.extensions.len(),
        ensures
            final(self)@ == with_removed_extension(old(self)@, j as int),
    {
        self.extensions.remove(j);
        proof {
            assert(final(self)@.extensions =~= old(self)@.extensions.remove(j as int));
            assert(final(self)@ =~= with_removed_extension(old(self)@, j as int));
        }
    }
}

impl Default for LsColours {
    /// The scheme a newly created scheme starts with: the fixed default
    /// colour for every slot and no extensions.
    fn default() -> (r: Self)
        ensures
            r@ == default_scheme(),
    {
        let r = LsColours {
            norm: ColourEntry::new(Effects::Default, Some(TerminalColour::White), None),
            rs: ColourEntry::new(Effects::Default, Some(TerminalColour::White), None),
            file: ColourEntry::new(Effects::Default, Some(TerminalColour::LightBlue), None),
            dir: ColourEntry::new(Effects::Bold, Some(TerminalColour::Blue), None),
            link: ColourEntry::new(Effects::Default, Some(TerminalColour::Gray), None),
            pipe: ColourEntry::new(Effects::Default, Some(TerminalColour::LightPurple), None),
            door: ColourEntry::new(Effects::Default, Some(TerminalColour::Purple), None),
            block: ColourEntry::new(Effects::Default, Some(TerminalColour::Yellow), None),
            character: ColourEntry::new(Effects::Bold, Some(TerminalColour::Yellow), None),
            orphan: ColourEntry::new(Effects::Default, Some(TerminalColour::Red), None),
            sock: ColourEntry::new(Effects::Bold, Some(TerminalColour::Orange), None),
            setuid: ColourEntry::new(Effects::Default, Some(TerminalColour::Blue), None),
            setgid: ColourEntry::new(Effects::Default, Some(TerminalColour::Blue), None),
            sticky_other_writable: ColourEntry::new(
                Effects::Default,
                Some(TerminalColour::Blue),
                None,
            ),
            other_writable: ColourEntry::new(
                Effects::Default,
                Some(TerminalColour::LightBlue),
                None,
            ),
            sticky: ColourEntry::new(Effects::Bold, Some(TerminalColour::LightBlue), None),
            executable: ColourEntry::new(Effects::Default, Some(TerminalColour::Green), None),
            missing: ColourEntry::new(Effects::Default, Some(TerminalColour::Red), None),
            extensions: Vec::new(),
        };
        proof {
            assert(r@ =~= default_scheme());
        }
        r
    }
}

/// Whether a character sequence is free of the `*` marker that introduces
/// an extension segment.
pub open spec fn no_star(s: Seq<char>) -> bool {
    forall|i: int| 0 <= i < s.len() ==> s[i] != '*'
}

proof fn lemma_no_star_concat(a: Seq<char>, b: Seq<char>)
    requires
        no_star(a),
        no_star(b),
    ensures
        no_star(a + b),
{
    assert forall|i: int| 0 <= i < (a + b).len() implies (a + b)[i] != '*' by {
        if i < a.len() {
            assert((a + b)[i] == a[i]);
        } else {
            assert((a + b)[i] == b[i - a.len()]);
        }
    }
}

proof fn lemma_entry_code_no_star(e: ColourEntry)
    ensures
        no_star(entry_code(e)),
{
    lemma_entry_code_wire_shape(e);
    assert forall|i: int| 0 <= i < entry_code(e).len() implies entry_code(e)[i] != '*' by {
        assert(is_digit_char(entry_code(e)[i]) || entry_code(e)[i] == ';');
    }
}

proof fn lemma_fixed_code_no_star(v: SchemeV)
    ensures
        no_star(fixed_code(v)),
{
    reveal_strlit("no=");
    reveal_strlit(":rs=");
    reveal_strlit(":fi=");
    reveal_strlit(":di=");
    reveal_strlit(":ln=");
    reveal_strlit(":pi=");
    reveal_strlit(":do=");
    reveal_strlit(":bd=");
    reveal_strlit(":cd=");
    reveal_strlit(":or=");
    reveal_strlit(":so=");
    reveal_strlit(":su=");
    reveal_strlit(":sg=");
    reveal_strlit(":tw=");
    reveal_strlit(":ow=");
    reveal_strlit(":st=");
    reveal_strlit(":ex=");
    reveal_strlit(":mi=");
    let s01 = "no="@ + entry_code(v.norm);
    lemma_entry_code_no_star(v.norm);
    lemma_no_star_concat("no="@, entry_code(v.norm));
    let s02 = s01 + ":rs="@ + entry_code(v.rs);
    lemma_entry_code_no_star(v.rs);
    lemma_no_star_concat(s01, ":rs="@);
    lemma_no_star_concat(s01 + ":rs="@, entry_code(v.rs));
    let s03 = s02 + ":fi="@ + entry_code(v.file);
    lemma_entry_code_no_star(v.file);
    lemma_no_star_concat(s02, ":fi="@);
    lemma_no_star_concat(s02 + ":fi="@, entry_code(v.file));
    let s04 = s03 + ":di="@ + entry_code(v.dir);
    lemma_entry_code_no_star(v.dir);
    lemma_no_star_concat(s03, ":di="@);
    lemma_no_star_concat(s03 + ":di="@, entry_code(v.dir));
    let s05 = s04 + ":ln="@ + entry_code(v.link);
    lemma_entry_code_no_star(v.link);
    lemma_no_star_concat(s04, ":ln="@);
    lemma_no_star_concat(s04 + ":ln="@, entry_code(v.link));
    let s06 = s05 + ":pi="@ + entry_code(v.pipe);
    lemma_entry_code_no_star(v.pipe);
    lemma_no_star_concat(s05, ":pi="@);
    lemma_no_star_concat(s05 + ":pi="@, entry_code(v.pipe));
    let s07 = s06 + ":do="@ + entry_code(v.door);
    lemma_entry_code_no_star(v.door);
    lemma_no_star_concat(s06, ":do="@);
    lemma_no_star_concat(s06 + ":do="@, entry_code(v.door));
    let s08 = s07 + ":bd="@ + entry_code(v.block);
    lemma_entry_code_no_star(v.block);
    lemma_no_star_concat(s07, ":bd="@);
    lemma_no_star_concat(s07 + ":bd="@, entry_code(v.block));
    let s09 = s08 + ":cd="@ + entry_code(v.character);
    lemma_entry_code_no_star(v.character);
    lemma_no_star_concat(s08, ":cd="@);
    lemma_no_star_concat(s08 + ":cd="@, entry_code(v.character));
    let s10 = s09 + ":or="@ + entry_code(v.orphan);
    lemma_entry_code_no_star(v.orphan);
    lemma_no_star_concat(s09, ":or="@);
    lemma_no_star_concat(s09 + ":or="@, entry_code(v.orphan));
    let s11 = s10 + ":so="@ + entry_code(v.sock);
    lemma_entry_code_no_star(v.sock);
    lemma_no_star_concat(s10, ":so="@);
    lemma_no_star_concat(s10 + ":so="@, entry_code(v.sock));
    let s12 = s11 + ":su="@ + entry_code(v.setuid);
    lemma_entry_code_no_star(v.setuid);
    lemma_no_star_concat(s11, ":su="@);
    lemma_no_star_concat(s11 + ":su="@, entry_code(v.setuid));
    let s13 = s12 + ":sg="@ + entry_code(v.setgid);
    lemma_entry_code_no_star(v.setgid);
    lemma_no_star_concat(s12, ":sg="@);
    lemma_no_star_concat(s12 + ":sg="@, entry_code(v.setgid));
    let s14 = s13 + ":tw="@ + entry_code(v.sticky_other_writable);
    lemma_entry_code_no_star(v.sticky_other_writable);
    lemma_no_star_concat(s13, ":tw="@);
    lemma_no_star_concat(s13 + ":tw="@, entry_code(v.sticky_other_writable));
    let s15 = s14 + ":ow="@ + entry_code(v.other_writable);
    lemma_entry_code_no_star(v.other_writable);
    lemma_no_star_concat(s14, ":ow="@);
    lemma_no_star_concat(s14 + ":ow="@, entry_code(v.other_writable));
    let s16 = s15 + ":st="@ + entry_code(v.sticky);
    lemma_entry_code_no_star(v.sticky);
    lemma_no_star_concat(s15, ":st="@);
    lemma_no_star_concat(s15 + ":st="@, entry_code(v.sticky));
    let s17 = s16 + ":ex="@ + entry_code(v.executable);
    lemma_entry_code_no_star(v.executable);
    lemma_no_star_concat(s16, ":ex="@);
    lemma_no_star_concat(s16 + ":ex="@, entry_code(v.executable));
    let s18 = s17 + ":mi="@ + entry_code(v.missing);
    lemma_entry_code_no_star(v.missing);
    lemma_no_star_concat(s17, ":mi="@);
    lemma_no_star_concat(s17 + ":mi="@, entry_code(v.missing));
    assert(fixed_code(v) == s18);
}

/// Law: the encoding of a scheme with no extensions is exactly the fixed
/// part and contains no `*` anywhere, so it has no extension segment.
pub proof fn lemma_no_extensions_no_star(v: SchemeV)
    requires
        v.extensions.len() == 0,
    ensures
        scheme_code(v) == fixed_code(v),
        no_star(scheme_code(v)),
{
    assert(scheme_code(v) =~= fixed_code(v));
    lemma_fixed_code_no_star(v);
}

/// Law: appending an extension with the colourless default entry appends
/// exactly one `:*name=00` segment after everything already encoded.
#[verifier::rlimit(50)]
pub proof fn lemma_push_extension_code(v: SchemeV, name: Seq<char>)
    ensures
        scheme_code(with_pushed_extension(v, name, colourless_entry())) == scheme_code(v) + ":*"@
            + name + "="@ + "00"@,
{
    let v2 = with_pushed_extension(v, name, colourless_entry());
    assert(v2.extensions.drop_last() =~= v.extensions);
    assert(v2.extensions.last() == (name, colourless_entry()));
    assert(exts_code(v2.extensions) == exts_code(v.extensions) + ext_seg(
        (name, colourless_entry()),
    ));
    assert(entry_code(colourless_entry()) =~= "00"@);
    assert(ext_seg((name, colourless_entry())) == ":*"@ + name + "="@ + "00"@);
    assert(fixed_code(v2) == fixed_code(v));
    assert(scheme_code(v2) == fixed_code(v) + (exts_code(v.extensions) + (":*"@ + name + "="@
        + "00"@)));
    assert(fixed_code(v) + (exts_code(v.extensions) + (":*"@ + name + "="@ + "00"@)) =~= scheme_code(
        v,
    ) + ":*"@ + name + "="@ + "00"@);
}

} // verus!
