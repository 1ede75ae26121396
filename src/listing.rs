//! The HTML page that lists a served directory.

use vstd::prelude::*;

use crate::text::{format_size, size_text};

verus! {

/// One entry of a listed directory, as read from the file system; `modified`
/// is already written out (or `-` when unknown).
#[derive(Debug)]
pub struct ListingEntry {
    pub name: String,
    pub is_dir: bool,
    pub size: u64,
    pub modified: String,
}

/// `a` comes before or equals `b` in code point order.
pub open spec fn text_le(a: Seq<char>, b: Seq<char>) -> bool
    decreases a.len(),
{
    if a.len() == 0 {
        true
    } else if b.len() == 0 {
        false
    } else if (a[0] as u32) != (b[0] as u32) {
        (a[0] as u32) < (b[0] as u32)
    } else {
        text_le(a.drop_first(), b.drop_first())
    }
}

/// Listing order: directories first, then by name.
pub open spec fn listed_before(a: ListingEntry, b: ListingEntry) -> bool {
    (a.is_dir && !b.is_dir) || (a.is_dir == b.is_dir && text_le(a.name@, b.name@))
}

pub open spec fn in_listing_order(s: Seq<ListingEntry>) -> bool {
    forall|i: int, j: int| 0 <= i < j < s.len() ==> listed_before(#[trigger] s[i], #[trigger] s[j])
}

proof fn lemma_text_le_total(a: Seq<char>, b: Seq<char>)
    ensures
        text_le(a, b) || text_le(b, a),
    decreases a.len(),
{
    if a.len() > 0 && b.len() > 0 && (a[0] as u32) == (b[0] as u32) {
        lemma_text_le_total(a.drop_first(), b.drop_first());
    }
}

proof fn lemma_text_le_trans(a: Seq<char>, b: Seq<char>, c: Seq<char>)
    requires
        text_le(a, b),
        text_le(b, c),
    ensures
        text_le(a, c),
    decreases a.len(),
{
    if a.len() > 0 && b.len() > 0 && c.len() > 0 && (a[0] as u32) == (b[0] as u32) && (b[0] as u32) == (c[0] as u32) {
        lemma_text_le_trans(a.drop_first(), b.drop_first(), c.drop_first());
    }
}

fn text_le_exec(a: &str, b: &str) -> (r: bool)
    ensures
        r == text_le(a@, b@),
{
    let na = a.unicode_len();
    let nb = b.unicode_len();
    let mut i: usize = 0;
    proof {
        assert(a@.subrange(0, na as int) =~= a@);
        assert(b@.subrange(0, nb as int) =~= b@);
    }
    while i < na && i < nb
        invariant
            na == a@.len(),
            nb == b@.len(),
            i <= na,
            i <= nb,
            text_le(a@, b@) == text_le(a@.subrange(i as int, na as int), b@.subrange(i as int, nb as int)),
        decreases na - i,
    {
        let ca = a.get_char(i);
        let cb = b.get_char(i);
        proof {
            let sa = a@.subrange(i as int, na as int);
            let sb = b@.subrange(i as int, nb as int);
            assert(sa[0] == ca && sb[0] == cb);
            assert(sa.drop_first() =~= a@.subrange(i + 1, na as int));
            assert(sb.drop_first() =~= b@.subrange(i + 1, nb as int));
        }
        if ca as u32 != cb as u32 {
            return (ca as u32) < (cb as u32);
        }
        i = i + 1;
    }
    proof {
        if i == na {
            assert(a@.subrange(i as int, na as int).len() == 0);
        } else {
            assert(b@.subrange(i as int, nb as int).len() == 0);
        }
    }
    i == na
}

fn listed_before_exec(a: &ListingEntry, b: &ListingEntry) -> (r: bool)
    ensures
        r == listed_before(*a, *b),
{
    if a.is_dir != b.is_dir {
        a.is_dir
    } else {
        text_le_exec(a.name.as_str(), b.name.as_str())
    }
}

/// The entries in listing order: directories first, then by name.
pub fn sort_entries(entries: Vec<ListingEntry>) -> (r: Vec<ListingEntry>)
    ensures
        r@.to_multiset() == entries@.to_multiset(),
        in_listing_order(r@),
{
    let mut rest = entries;
    let mut out: Vec<ListingEntry> = Vec::new();
    proof {
        broadcast use vstd::seq_lib::group_to_multiset_ensures;
        assert(out@ + rest@ =~= entries@);
    }
    while rest.len() > 0
        invariant
            (out@ + rest@).to_multiset() == entries@.to_multiset(),
            in_listing_order(out@),
        decreases rest.len(),
    {
        broadcast use vstd::seq_lib::group_to_multiset_ensures;
        let ghost before_rest = rest@;
        let e = rest.pop().unwrap();
        proof {
            assert(before_rest =~= rest@.push(e));
        }
        // position: after every entry that is listed before `e`
        let mut k: usize = out.len();
        while k > 0 && !listed_before_exec(&out[k - 1], &e)
            invariant
                k <= out@.len(),
                in_listing_order(out@),
                forall|j: int| k <= j < out@.len() ==> !listed_before(#[trigger] out@[j], e),
            decreases k,
        {
            k = k - 1;
        }
        let ghost old_out = out@;
        out.insert(k, e);
        proof {
            assert(out@ =~= old_out.insert(k as int, e));
            assert forall|i: int, j: int| 0 <= i < j < out@.len() implies listed_before(#[trigger] out@[i], #[trigger] out@[j]) by {
                let x = out@[i];
                let y = out@[j];
                if j == k {
                    if i < k - 1 {
                        assert(listed_before(old_out[i], old_out[k - 1]));
                        lemma_listed_before_trans(old_out[i], old_out[k - 1], e);
                    }
                } else if i == k {
                    assert(!listed_before(old_out[j - 1], e));
                    lemma_listed_before_total(old_out[j - 1], e);
                } else {
                    let oi = if i < k { i } else { i - 1 };
                    let oj = if j < k { j } else { j - 1 };
                    assert(x == old_out[oi] && y == old_out[oj]);
                }
            }
            vstd::seq_lib::to_multiset_insert(old_out, k as int, e);
            vstd::seq_lib::lemma_multiset_commutative(old_out, before_rest);
            vstd::seq_lib::lemma_multiset_commutative(out@, rest@);
            broadcast use vstd::multiset::group_multiset_axioms;
            assert(before_rest.to_multiset() =~= rest@.to_multiset().insert(e));
            assert((out@ + rest@).to_multiset() =~= (old_out + before_rest).to_multiset());
        }
    }
    proof {
        assert(out@ + rest@ =~= out@);
    }
    out
}

proof fn lemma_listed_before_total(a: ListingEntry, b: ListingEntry)
    ensures
        listed_before(a, b) || listed_before(b, a),
{
    lemma_text_le_total(a.name@, b.name@);
}

proof fn lemma_listed_before_trans(a: ListingEntry, b: ListingEntry, c: ListingEntry)
    requires
        listed_before(a, b),
        listed_before(b, c),
    ensures
        listed_before(a, c),
{
    if a.is_dir == b.is_dir && b.is_dir == c.is_dir {
        lemma_text_le_trans(a.name@, b.name@, c.name@);
    }
}

/// Text pieces of the page, in the order they appear.
pub const HEAD_OPEN: &'static str = r#"<!DOCTYPE html>
<html>
<head>
    <meta charset="utf-8">
    <title>Index of "#;

pub const HEAD_MIDDLE: &'static str = r#"</title>
    <style>
        body { font-family: -apple-system, BlinkMacSystemFont, "Segoe UI", Roboto, sans-serif; margin: 20px; background: #f5f5f5; }
        h1 { color: #333; border-bottom: 2px solid #4CAF50; padding-bottom: 10px; }
        table { border-collapse: collapse; width: 100%; background: white; box-shadow: 0 1px 3px rgba(0,0,0,0.1); }
        th, td { padding: 12px 15px; text-align: left; border-bottom: 1px solid #ddd; }
        th { background: #4CAF50; color: white; }
        tr:hover { background: #f1f1f1; }
        a { color: #1976D2; text-decoration: none; }
        a:hover { text-decoration: underline; }
        .icon { margin-right: 8px; }
        .size { color: #666; }
        .date { color: #888; }
    </style>
</head>
<body>
    <h1>📁 Index of "#;

pub const HEAD_CLOSE: &'static str = r#"</h1>
    <table>
        <tr><th>Name</th><th>Size</th><th>Modified</th></tr>
"#;

pub const PARENT_ROW: &'static str = r#"        <tr><td><span class="icon">📂</span><a href="../">..</a></td><td>-</td><td>-</td></tr>
"#;

pub const PAGE_TAIL: &'static str = r#"    </table>
    <p style="color:#888;margin-top:20px;font-size:12px;">OServers HTTP Server</p>
</body>
</html>"#;

pub const ROW_OPEN: &'static str = r#"        <tr><td><span class="icon">"#;

pub const ROW_HREF: &'static str = r#"</span><a href=""#;

pub const ROW_NAME: &'static str = r#"">"#;

pub const ROW_SIZE: &'static str = r#"</a></td><td class="size">"#;

pub const ROW_DATE: &'static str = r#"</td><td class="date">"#;

pub const ROW_CLOSE: &'static str = r#"</td></tr>
"#;

/// The rows of `entries`, in order.
pub open spec fn rows_text(entries: Seq<ListingEntry>) -> Seq<char>
    decreases entries.len(),
{
    if entries.len() == 0 {
        Seq::empty()
    } else {
        rows_text(entries.drop_last()) + row_text(entries.last())
    }
}

/// The table row of one entry: a folder icon, a link ending in `/` and no
/// size for a directory; a page icon, a plain link and the size for a file.
pub open spec fn row_text(e: ListingEntry) -> Seq<char> {
    let icon = if e.is_dir { "\u{1F4C2}"@ } else { "\u{1F4C4}"@ };
    let href = if e.is_dir { e.name@ + "/"@ } else { e.name@ };
    let size = if e.is_dir { "-"@ } else { size_text(e.size as nat) };
    ROW_OPEN@ + icon + ROW_HREF@ + href + ROW_NAME@ + e.name@ + ROW_SIZE@ + size + ROW_DATE@ + e.modified@ + ROW_CLOSE@
}

/// The page for `path` listing `entries` in the given order; below the root
/// it starts with a link to the parent directory.
pub open spec fn page_text(path: Seq<char>, entries: Seq<ListingEntry>) -> Seq<char> {
    HEAD_OPEN@ + path + HEAD_MIDDLE@ + path + HEAD_CLOSE@
        + (if path == "/"@ { Seq::empty() } else { PARENT_ROW@ })
        + rows_text(entries) + PAGE_TAIL@
}

fn push_row(out: &mut String, e: &ListingEntry)
    ensures
        final(out)@ == old(out)@ + row_text(*e),
{
    out.append(ROW_OPEN);
    if e.is_dir {
        out.append("\u{1F4C2}");
    } else {
        out.append("\u{1F4C4}");
    }
    out.append(ROW_HREF);
    out.append(e.name.as_str());
    if e.is_dir {
        out.append("/");
    }
    out.append(ROW_NAME);
    out.append(e.name.as_str());
    out.append(ROW_SIZE);
    if e.is_dir {
        out.append("-");
    } else {
        let size = format_size(e.size);
        out.append(size.as_str());
    }
    out.append(ROW_DATE);
    out.append(e.modified.as_str());
    out.append(ROW_CLOSE);
    proof {
        assert(final(out)@ =~= old(out)@ + row_text(*e));
    }
}

fn is_root(path: &str) -> (r: bool)
    ensures
        r == (path@ == "/"@),
{
    proof {
        reveal_strlit("/");
    }
    if path.unicode_len() != 1 {
        return false;
    }
    let c = path.get_char(0);
    proof {
        if c == '/' {
            assert(path@ =~= "/"@);
        }
    }
    c == '/'
}

/// The page for `path` listing `entries` in the order given.
pub fn render_listing(path: &str, entries: &Vec<ListingEntry>) -> (r: String)
    ensures
        r@ == page_text(path@, entries@),
{
    let mut out = String::from_str(HEAD_OPEN);
    out.append(path);
    out.append(HEAD_MIDDLE);
    out.append(path);
    out.append(HEAD_CLOSE);
    if !is_root(path) {
        out.append(PARENT_ROW);
    }
    let ghost head = out@;
    let mut i: usize = 0;
    while i < entries.len()
        invariant
            i <= entries@.len(),
            out@ == head + rows_text(entries@.subrange(0, i as int)),
        decreases entries@.len() - i,
    {
        proof {
            assert(entries@.subrange(0, i + 1).drop_last() =~= entries@.subrange(0, i as int));
        }
        push_row(&mut out, &entries[i]);
        i = i + 1;
        proof {
            assert(out@ =~= head + rows_text(entries@.subrange(0, i as int)));
        }
    }
    out.append(PAGE_TAIL);
    proof {
        assert(entries@.subrange(0, i as int) =~= entries@);
        assert(out@ =~= page_text(path@, entries@));
    }
    out
}

/// The page for `path` listing `entries`, directories first, then by name.
pub fn directory_page(path: &str, entries: Vec<ListingEntry>) -> (r: String)
    ensures
        exists|listed: Seq<ListingEntry>|
            listed.to_multiset() == entries@.to_multiset() && in_listing_order(listed) && r@ == page_text(path@, listed),
{
    let listed = sort_entries(entries);
    render_listing(path, &listed)
}

} // verus!
