//! File-dialog filters and the NUL-separated text that the host reads them
//! from.

use vstd::prelude::*;
use crate::text::{join, push_char, push_str};

verus! {

/// A file-dialog filter: a name and the file extensions it matches.
#[derive(Debug, Clone, PartialEq, Eq)]
pub struct FileFilter {
    /// The name shown in the dialog.
    pub name: String,
    /// The extensions, without the dot; none means every file.
    pub extensions: Vec<String>,
}

/// Each extension with `prefix` in front of it.
pub open spec fn prefixed(exts: Seq<String>, prefix: Seq<char>) -> Seq<Seq<char>> {
    exts.map_values(|e: String| prefix + e@)
}

/// The extensions as the dialog shows them: `.png, .jpg`, or `*` for none.
pub open spec fn shown_extensions(exts: Seq<String>) -> Seq<char> {
    if exts.len() == 0 {
        seq!['*']
    } else {
        join(prefixed(exts, seq!['.']), seq![',', ' '])
    }
}

/// The extensions as a match pattern: `*.png;*.jpg`, or `*` for none.
pub open spec fn pattern_extensions(exts: Seq<String>) -> Seq<char> {
    if exts.len() == 0 {
        seq!['*']
    } else {
        join(prefixed(exts, seq!['*', '.']), seq![';'])
    }
}

/// One filter's text: `name (shown)`, NUL, pattern, NUL.
pub open spec fn filter_entry(f: FileFilter) -> Seq<char> {
    f.name@ + seq![' ', '('] + shown_extensions(f.extensions@) + seq![')', '\0']
        + pattern_extensions(f.extensions@) + seq!['\0']
}

/// The text of a filter list: the entries of the filters, in order.
pub open spec fn filters_text(fs: Seq<FileFilter>) -> Seq<char>
    decreases fs.len(),
{
    if fs.len() == 0 {
        Seq::empty()
    } else {
        filters_text(fs.drop_last()) + filter_entry(fs.last())
    }
}

fn push_joined(out: &mut String, exts: &Vec<String>, pattern: bool)
    requires
        exts@.len() > 0,
    ensures
        final(out)@ == old(out)@ + (if pattern {
            pattern_extensions(exts@)
        } else {
            shown_extensions(exts@)
        }),
{
    let ghost prefix: Seq<char> = if pattern {
        seq!['*', '.']
    } else {
        seq!['.']
    };
    let ghost sep: Seq<char> = if pattern {
        seq![';']
    } else {
        seq![',', ' ']
    };
    let ghost parts = prefixed(exts@, prefix);
    let ghost start = out@;
    let n = exts.len();
    let mut i: usize = 0;
    while i < n
        invariant
            n == exts@.len(),
            i <= n,
            parts == prefixed(exts@, prefix),
            prefix == (if pattern {
                seq!['*', '.']
            } else {
                seq!['.']
            }),
            sep == (if pattern {
                seq![';']
            } else {
                seq![',', ' ']
            }),
            out@ == start + join(parts.take(i as int), sep),
        decreases n - i,
    {
        let ghost before = out@;
        if i > 0 {
            if pattern {
                push_char(out, ';');
            } else {
                push_char(out, ',');
                push_char(out, ' ');
            }
        }
        if pattern {
            push_char(out, '*');
        }
        push_char(out, '.');
        push_str(out, exts[i].as_str());
        proof {
            let t = parts.take(i + 1);
            assert(t.drop_last() =~= parts.take(i as int));
            assert(t.last() == prefix + exts@[i as int]@);
            if i > 0 {
                assert(out@ =~= before + sep + prefix + exts@[i as int]@);
            } else {
                assert(parts.take(0) =~= Seq::<Seq<char>>::empty());
                assert(out@ =~= before + prefix + exts@[i as int]@);
            }
            assert(out@ =~= start + join(t, sep));
        }
        i = i + 1;
    }
    assert(parts.take(n as int) =~= parts);
}

fn push_entry(out: &mut String, f: &FileFilter)
    ensures
        final(out)@ == old(out)@ + filter_entry(*f),
{
    let ghost start = out@;
    push_str(out, f.name.as_str());
    push_char(out, ' ');
    push_char(out, '(');
    if f.extensions.len() == 0 {
        push_char(out, '*');
    } else {
        push_joined(out, &f.extensions, false);
    }
    push_char(out, ')');
    push_char(out, '\0');
    if f.extensions.len() == 0 {
        push_char(out, '*');
    } else {
        push_joined(out, &f.extensions, true);
    }
    push_char(out, '\0');
    assert(out@ =~= start + filter_entry(*f));
}

/// The NUL-separated filter text of a file dialog: for each filter its name
/// and shown extensions, then its match pattern.
///
/// For example `Image Files (.png, .jpg)\0*.png;*.jpg\0All Files (*)\0*\0`.
pub fn format_file_filters(file_filters: &[FileFilter]) -> (r: String)
    ensures
        r@ == filters_text(file_filters@),
{
    let mut out = String::new();
    let n = file_filters.len();
    let mut i: usize = 0;
    while i < n
        invariant
            n == file_filters@.len(),
            i <= n,
            out@ == filters_text(file_filters@.take(i as int)),
        decreases n - i,
    {
        push_entry(&mut out, &file_filters[i]);
        proof {
            let t = file_filters@.take(i + 1);
            assert(t.drop_last() =~= file_filters@.take(i as int));
        }
        i = i + 1;
    }
    assert(file_filters@.take(n as int) =~= file_filters@);
    out
}

} // verus!
