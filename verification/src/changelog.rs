//! Parsing of the project changelog into version sections.
//!
//! Lines are split at `\n` and trimmed; a trailing `\r` and a final empty
//! line, which `str::lines` drops, vanish in the trimming anyway.

use vstd::prelude::*;
use crate::net::string_views;
use crate::text::starts_with;
use crate::text::{
    chars_eq_str, chars_of, slice_to_vec, split_chars, split_on, string_of, trim, trim_chars, views,
};

verus! {

/// One version's entry: the heading text and its bullet items.
pub struct ChangelogSection {
    pub version: String,
    pub items: Vec<String>,
}

/// A section as plain values: heading and items.
pub type SectionView = (Seq<char>, Seq<Seq<char>>);

impl View for ChangelogSection {
    type V = SectionView;

    open spec fn view(&self) -> SectionView {
        (self.version@, string_views(self.items@))
    }
}

/// The heading of the notes section, which holds no version and is skipped.
pub open spec fn notes_heading() -> Seq<char> {
    "说明"@
}

/// Parser state: finished sections and the section being filled.
pub type ParseState = (Seq<SectionView>, Option<SectionView>);

/// The finished list, with `cur` appended when it has items.
pub open spec fn close_section(done: Seq<SectionView>, cur: Option<SectionView>) -> Seq<SectionView> {
    match cur {
        Some(sec) => if sec.1.len() > 0 {
            done.push(sec)
        } else {
            done
        },
        None => done,
    }
}

/// One trimmed line: `## v` closes the current section and opens `v`
/// (unless `v` is the notes heading); `- x` adds item `x` to the open
/// section; anything else is ignored.
pub open spec fn changelog_step(st: ParseState, line: Seq<char>) -> ParseState {
    if starts_with(line, "## "@) {
        let heading = line.subrange(3, line.len() as int);
        let done = close_section(st.0, st.1);
        if heading != notes_heading() {
            (done, Some((heading, Seq::<Seq<char>>::empty())))
        } else {
            (done, None)
        }
    } else if starts_with(line, "- "@) {
        match st.1 {
            Some(sec) => (st.0, Some((sec.0, sec.1.push(line.subrange(2, line.len() as int))))),
            None => st,
        }
    } else {
        st
    }
}

/// The parser state after the given raw lines.
pub open spec fn changelog_state(lines: Seq<Seq<char>>) -> ParseState
    decreases lines.len(),
{
    if lines.len() == 0 {
        (Seq::<SectionView>::empty(), None)
    } else {
        changelog_step(changelog_state(lines.drop_last()), trim(lines.last()))
    }
}

/// The sections of a changelog text, empty ones left out.
pub open spec fn changelog_sections(src: Seq<char>) -> Seq<SectionView> {
    let st = changelog_state(split_on(src, '\n'));
    close_section(st.0, st.1)
}

/// Exec form of `starts_with` against a literal.
fn has_prefix(line: &[char], prefix: &str) -> (b: bool)
    ensures
        b == starts_with(line@, prefix@),
{
    let p = chars_of(prefix);
    if p.len() > line.len() {
        return false;
    }
    let head = slice_to_vec(line, 0, p.len());
    crate::text::chars_eq(head.as_slice(), p.as_slice())
}

fn strings_of(v: &Vec<Vec<char>>) -> (r: Vec<String>)
    ensures
        string_views(r@) == views(v@),
{
    let mut r: Vec<String> = Vec::new();
    let mut i: usize = 0;
    while i < v.len()
        invariant
            0 <= i <= v@.len(),
            string_views(r@) == views(v@).subrange(0, i as int),
        decreases v@.len() - i,
    {
        let s = string_of(v[i].as_slice());
        let ghost before = r@;
        r.push(s);
        assert(string_views(r@) =~= string_views(before).push(s@));
        assert(views(v@).subrange(0, i + 1) =~= views(v@).subrange(0, i as int).push(v@[i as int]@));
        i = i + 1;
    }
    assert(views(v@).subrange(0, v@.len() as int) =~= views(v@));
    r
}

/// Reads the version sections of a changelog: `## ` headings open sections,
/// `- ` lines are their items; sections without items are dropped.
pub fn parse_changelog(src: &str) -> (sections: Vec<ChangelogSection>)
    ensures
        sections@.map_values(|s: ChangelogSection| s@) == changelog_sections(src@),
{
    proof {
        reveal_strlit("## ");
        reveal_strlit("- ");
    }
    let chars = chars_of(src);
    let lines = split_chars(chars.as_slice(), '\n');
    let ghost ls = views(lines@);
    let mut done: Vec<ChangelogSection> = Vec::new();
    let mut cur_version: Vec<char> = Vec::new();
    let mut cur_items: Vec<Vec<char>> = Vec::new();
    let mut has_cur = false;
    let mut i: usize = 0;
    while i < lines.len()
        invariant
            0 <= i <= lines@.len(),
            ls == views(lines@),
            ls == split_on(src@, '\n'),
            "## "@.len() == 3,
            "- "@.len() == 2,
            done@.map_values(|s: ChangelogSection| s@) == changelog_state(ls.subrange(0, i as int)).0,
            changelog_state(ls.subrange(0, i as int)).1 == (if has_cur {
                Some((cur_version@, views(cur_items@)))
            } else {
                None::<SectionView>
            }),
        decreases lines@.len() - i,
    {
        let line = trim_chars(lines[i].as_slice());
        let ghost pre = ls.subrange(0, i as int);
        assert(ls.subrange(0, i + 1).drop_last() == pre);
        assert(ls.subrange(0, i + 1).last() == lines@[i as int]@);
        let ghost st = changelog_state(pre);
        if has_prefix(line.as_slice(), "## ") {
            let heading = slice_to_vec(line.as_slice(), 3, line.len());
            assert(heading@ == line@.subrange(3, line@.len() as int));
            let ghost before = done@;
            if has_cur && cur_items.len() > 0 {
                let mut v: Vec<char> = Vec::new();
                std::mem::swap(&mut v, &mut cur_version);
                let mut it: Vec<Vec<char>> = Vec::new();
                std::mem::swap(&mut it, &mut cur_items);
                let version = string_of(v.as_slice());
                let items = strings_of(&it);
                done.push(ChangelogSection { version, items });
                assert(done@.map_values(|s: ChangelogSection| s@) =~= before.map_values(
                    |s: ChangelogSection| s@,
                ).push((v@, views(it@))));
            }
            assert(done@.map_values(|s: ChangelogSection| s@) =~= close_section(st.0, st.1));
            if !chars_eq_str(heading.as_slice(), "说明") {
                cur_version = heading;
                cur_items = Vec::new();
                has_cur = true;
                assert(views(cur_items@) =~= Seq::<Seq<char>>::empty());
            } else {
                cur_version = Vec::new();
                cur_items = Vec::new();
                has_cur = false;
            }
        } else if has_prefix(line.as_slice(), "- ") {
            if has_cur {
                let item = slice_to_vec(line.as_slice(), 2, line.len());
                let ghost before = cur_items@;
                let ghost item_view = item@;
                cur_items.push(item);
                assert(views(cur_items@) =~= views(before).push(item_view));
            }
        }
        i = i + 1;
    }
    assert(ls.subrange(0, ls.len() as int) == ls);
    let ghost before = done@;
    if has_cur && cur_items.len() > 0 {
        let version = string_of(cur_version.as_slice());
        let items = strings_of(&cur_items);
        done.push(ChangelogSection { version, items });
        assert(done@.map_values(|s: ChangelogSection| s@) =~= before.map_values(
            |s: ChangelogSection| s@,
        ).push((cur_version@, views(cur_items@))));
    }
    done
}

} // verus!
