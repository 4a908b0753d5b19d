use vstd::prelude::*;

use crate::error::ServerError;
use crate::model::sqlite::{answers_outcome, post_outcome, post_steps_for, views_counted, PostInfo, PostSteps, SqliteOperations, ViewStep};

verus! {

/// A post: what its front matter says of it, and its body rendered as HTML.
pub struct Markdown {
    pub metadata: MarkdownMetadata,
    pub content: String,
}

/// What a post's front matter says of it.
#[derive(Clone, Debug, PartialEq, Eq)]
pub struct MarkdownMetadata {
    pub version: Option<String>,
    pub filename: String,
    pub title: String,
    pub subtitle: String,
    pub description: String,
    pub author: Option<String>,
    pub tags: Option<Vec<String>>,
    pub similar_posts: Option<Vec<String>>,
    pub date: Option<String>,
    pub finished: bool,
    pub image_preview: Option<String>,
    /// The owner's id, the 128 bits of a UUID.
    pub owner: Option<u128>,
}

impl Default for MarkdownMetadata {
    fn default() -> (r: MarkdownMetadata)
        ensures
            r.version is None,
            r.filename@ == Seq::<char>::empty(),
            r.title@ == Seq::<char>::empty(),
            r.subtitle@ == Seq::<char>::empty(),
            r.description@ == Seq::<char>::empty(),
            r.author is None,
            r.tags is None,
            r.similar_posts is None,
            r.date is None,
            !r.finished,
            r.image_preview is None,
            r.owner is None,
    {
        MarkdownMetadata {
            version: None,
            filename: String::new(),
            title: String::new(),
            subtitle: String::new(),
            description: String::new(),
            author: None,
            tags: None,
            similar_posts: None,
            date: None,
            finished: false,
            image_preview: None,
            owner: None,
        }
    }
}

/// A post file as it was read: its whole text, and what reading its front
/// matter into a `MarkdownMetadata` gave (the reader's message on failure).
pub struct MarkdownFile {
    pub text: String,
    pub metadata: Result<MarkdownMetadata, String>,
}

/// An entry of a blog's folder, as it was read.
pub enum PostEntry {
    /// A sub-folder; it is skipped.
    Folder,
    /// The entry's kind could not be read.
    FileTypeError(std::io::Error),
    /// A file that could not be read, with its path.
    Unreadable(String),
    /// A file that was read, with what reading its front matter gave.
    File(Result<MarkdownMetadata, String>),
}

/// Walking a folder whose entries are `entries`, the database aside: entries
/// are taken in order; sub-folders and files whose front matter cannot be
/// read are skipped; the walk stops at the first entry whose kind or text
/// cannot be read. Gives the front matters of the posts met before the stop,
/// and the error that stopped it (`IOError`, or `PageNotFound(path)`), if any.
pub open spec fn scan_entries(entries: Seq<PostEntry>) -> (Seq<MarkdownMetadata>, Option<ServerError>)
    decreases entries.len(),
{
    if entries.len() == 0 {
        (Seq::empty(), None)
    } else {
        let (ms, err) = scan_entries(entries.drop_last());
        if err is Some {
            (ms, err)
        } else {
            match entries.last() {
                PostEntry::Folder => (ms, None),
                PostEntry::FileTypeError(e) => (ms, Some(ServerError::IOError(e))),
                PostEntry::Unreadable(p) => (ms, Some(ServerError::PageNotFound(p))),
                PostEntry::File(Ok(m)) => (ms.push(m), None),
                PostEntry::File(Err(_)) => (ms, None),
            }
        }
    }
}

/// Walking a folder takes its entries in order: nothing is met in no entry;
/// after a stop, further entries change nothing; before one, a sub-folder or a
/// file whose front matter cannot be read adds nothing, a post adds its front
/// matter after those met before, and an entry whose kind or text cannot be
/// read stops the walk with its error, keeping what was met.
pub proof fn law_walk_takes_entries_in_order(entries: Seq<PostEntry>, x: PostEntry)
    ensures
        scan_entries(Seq::empty()) == (Seq::<MarkdownMetadata>::empty(), None::<ServerError>),
        scan_entries(entries).1 is Some ==> scan_entries(entries.push(x)) == scan_entries(entries),
        scan_entries(entries).1 is None ==> match x {
            PostEntry::Folder => scan_entries(entries.push(x)) == scan_entries(entries),
            PostEntry::File(Err(_)) => scan_entries(entries.push(x)) == scan_entries(entries),
            PostEntry::File(Ok(m)) => scan_entries(entries.push(x)) == (scan_entries(entries).0.push(m), None::<ServerError>),
            PostEntry::FileTypeError(e) => scan_entries(entries.push(x))
                == (scan_entries(entries).0, Some(ServerError::IOError(e))),
            PostEntry::Unreadable(p) => scan_entries(entries.push(x))
                == (scan_entries(entries).0, Some(ServerError::PageNotFound(p))),
        },
{
    assert(entries.push(x).drop_last() =~= entries);
}

/// A result over a `Vec`, read over its sequence.
pub open spec fn seq_result<T>(r: Result<Vec<T>, ServerError>) -> Result<Seq<T>, ServerError> {
    match r {
        Ok(v) => Ok(v@),
        Err(e) => Err(e),
    }
}

/// `r` is what listing a folder whose entries are `entries` gives, where
/// `lookups` are the record lookups it made. The posts met before the walk
/// stops are looked up in order, each by its filename; the listing stops at
/// the first lookup that fails and gives its error; otherwise it gives the
/// walk's error, or, when there is none, each post with the record its
/// lookup gave.
pub open spec fn listing_holds(
    entries: Seq<PostEntry>,
    lookups: Seq<PostSteps>,
    r: Result<Seq<(MarkdownMetadata, PostInfo)>, ServerError>,
) -> bool {
    let ms = scan_entries(entries).0;
    let err = scan_entries(entries).1;
    &&& lookups.len() <= ms.len()
    &&& forall|k: int| 0 <= k < lookups.len() ==> post_steps_for(ms[k].filename@, #[trigger] lookups[k])
    &&& forall|k: int| 0 <= k < lookups.len() - 1 ==> (#[trigger] post_outcome(lookups[k])) is Ok
    &&& match r {
        Ok(l) => {
            &&& err is None
            &&& lookups.len() == ms.len()
            &&& l.len() == ms.len()
            &&& forall|k: int| 0 <= k < l.len() ==> (#[trigger] l[k]).0 == ms[k]
                && post_outcome(lookups[k]) == Ok::<PostInfo, ServerError>(l[k].1)
        },
        Err(e) => if lookups.len() > 0 && post_outcome(lookups.last()) is Err {
            post_outcome(lookups.last()) == Err::<PostInfo, ServerError>(e)
        } else {
            lookups.len() == ms.len() && err == Some(e)
        },
    }
}

/// A listing is settled by the folder's entries and the database's answers:
/// two results that both meet `listing_holds` for the same entries and the same
/// lookups are the same result.
pub proof fn law_listing_is_determined(
    entries: Seq<PostEntry>,
    lookups: Seq<PostSteps>,
    r1: Result<Seq<(MarkdownMetadata, PostInfo)>, ServerError>,
    r2: Result<Seq<(MarkdownMetadata, PostInfo)>, ServerError>,
)
    requires
        listing_holds(entries, lookups, r1),
        listing_holds(entries, lookups, r2),
    ensures
        r1 == r2,
{
    let ms = scan_entries(entries).0;
    match (r1, r2) {
        (Ok(l1), Ok(l2)) => {
            assert forall|k: int| 0 <= k < l1.len() implies l1[k] == l2[k] by {
                assert(l1[k].0 == ms[k] && l2[k].0 == ms[k]);
            }
            assert(l1 =~= l2);
        },
        (Ok(l1), Err(e2)) => {
            if lookups.len() > 0 {
                let k = lookups.len() - 1;
                assert(l1[k].0 == ms[k]);
            }
        },
        (Err(e1), Ok(l2)) => {
            if lookups.len() > 0 {
                let k = lookups.len() - 1;
                assert(l2[k].0 == ms[k]);
            }
        },
        (Err(e1), Err(e2)) => {},
    }
}

/// A listing that succeeded pairs each post of the folder, in order, with the
/// very record its lookup gave (its id and its views as the database answered
/// them), and it looked each post up by its filename.
pub proof fn law_listed_records_are_the_lookups(
    entries: Seq<PostEntry>,
    lookups: Seq<PostSteps>,
    l: Seq<(MarkdownMetadata, PostInfo)>,
)
    requires
        listing_holds(entries, lookups, Ok(l)),
    ensures
        l.len() == lookups.len(),
        l.len() == scan_entries(entries).0.len(),
        forall|k: int| 0 <= k < l.len() ==> (#[trigger] l[k]).0 == scan_entries(entries).0[k]
            && post_outcome(lookups[k]) == Ok::<PostInfo, ServerError>(l[k].1)
            && post_steps_for(l[k].0.filename@, lookups[k]),
{
    assert forall|k: int| 0 <= k < l.len() implies (#[trigger] l[k]).0 == scan_entries(entries).0[k]
        && post_outcome(lookups[k]) == Ok::<PostInfo, ServerError>(l[k].1)
        && post_steps_for(l[k].0.filename@, lookups[k]) by {
        assert(l[k].0 == scan_entries(entries).0[k]);
    }
}

/// A post whose first lookup finds a row is paired with that row's record:
/// its id and views are the row's columns, whatever else was asked. A post
/// without a row is paired with the row read back after its record was
/// inserted.
pub proof fn law_record_is_the_row_found(
    row: (String, u16),
    inserted: Option<Result<usize, rusqlite::Error>>,
    reread: Option<Result<(String, u16), rusqlite::Error>>,
    n: usize,
)
    ensures
        answers_outcome(Ok(Some(row)), inserted, reread) == Ok::<PostInfo, ServerError>(PostInfo { id: row.0, views: row.1 }),
        answers_outcome(Ok(None), Some(Ok(n)), Some(Ok(row))) == Ok::<PostInfo, ServerError>(PostInfo { id: row.0, views: row.1 }),
{
}

/// A folder whose entries hold no post and nothing unreadable (only
/// sub-folders and files whose front matter cannot be read) is listed as an
/// empty list, without a lookup.
pub proof fn law_listing_without_posts_is_empty(
    entries: Seq<PostEntry>,
    lookups: Seq<PostSteps>,
    r: Result<Seq<(MarkdownMetadata, PostInfo)>, ServerError>,
)
    requires
        scan_entries(entries).0.len() == 0,
        scan_entries(entries).1 is None,
        listing_holds(entries, lookups, r),
    ensures
        lookups.len() == 0,
        r == Ok::<Seq<(MarkdownMetadata, PostInfo)>, ServerError>(Seq::empty()),
{
    match r {
        Ok(l) => {
            assert(l =~= Seq::<(MarkdownMetadata, PostInfo)>::empty());
        },
        Err(_) => {},
    }
}

/// `r` is what reading the post at `path` from `file` and looking up its
/// record gives, where `steps` is the lookup made: an unreadable file is
/// `PageNotFound(path)` and an unreadable front matter a `YamlConvertionError`
/// with the reader's message, neither with a lookup; else the record is looked
/// up by the post's filename and the post is paired with what it gave.
pub open spec fn post_info_holds(
    path: Seq<char>,
    file: Option<MarkdownFile>,
    steps: Option<PostSteps>,
    r: Result<(MarkdownMetadata, PostInfo), ServerError>,
) -> bool {
    match file {
        None => r matches Err(ServerError::PageNotFound(p)) && p@ == path && steps is None,
        Some(f) => match f.metadata {
            Err(e) => r matches Err(ServerError::YamlConvertionError(e2)) && e2@ == e@ && steps is None,
            Ok(m) => steps matches Some(s) && post_steps_for(m.filename@, s) && match post_outcome(s) {
                Ok(p) => r == Ok::<(MarkdownMetadata, PostInfo), ServerError>((m, p)),
                Err(e) => r == Err::<(MarkdownMetadata, PostInfo), ServerError>(e),
            },
        },
    }
}

/// Counting a view with `Markdown::add_views_to_markdown` is counting it with
/// `SqliteOperations::increment_views`: both run the same statement for the
/// same post, and given the same answer of the database they give the same
/// result.
pub proof fn law_add_views_is_increment_views(
    title: Seq<char>,
    added: ViewStep,
    added_result: Result<(), ServerError>,
    incremented: ViewStep,
    incremented_result: Result<(), ServerError>,
)
    requires
        views_counted(title, added, added_result),
        views_counted(title, incremented, incremented_result),
        added.answer == incremented.answer,
    ensures
        added == incremented,
        added_result == incremented_result,
{
}

/// The options that posts are rendered with: tables are enabled.
pub const MARKDOWN_OPTIONS: u32 = 2;

/// The HTML that `pulldown_cmark` renders from the markdown `text` under the
/// option bits `options`.
pub uninterp spec fn markdown_html(text: Seq<char>, options: u32) -> Seq<char>;

/// Renders `text` to HTML with `pulldown_cmark::Parser::new_ext` and
/// `pulldown_cmark::html::push_html` into an empty string, under the option
/// bits `options`. The contract claims only that the result is the named
/// rendering of exactly these arguments.
#[verifier::external_body]
fn render_html(text: &str, options: u32) -> (r: String)
    ensures
        r@ == markdown_html(text@, options),
{
    let mut out = String::new();
    let parser = pulldown_cmark::Parser::new_ext(text, pulldown_cmark::Options::from_bits_truncate(options));
    pulldown_cmark::html::push_html(&mut out, parser);
    out
}

/// Three dashes, the mark that opens and closes a post's front matter, start at `i`.
pub open spec fn dashes_at(s: Seq<char>, i: int) -> bool {
    &&& 0 <= i
    &&& i + 3 <= s.len()
    &&& s[i] == '-'
    &&& s[i + 1] == '-'
    &&& s[i + 2] == '-'
}

/// The first position at or after `from` where three dashes start.
pub open spec fn first_dashes_from(s: Seq<char>, from: int) -> Option<int>
    decreases s.len() - from,
{
    if from < 0 || s.len() < from + 3 {
        None
    } else if dashes_at(s, from) {
        Some(from)
    } else {
        first_dashes_from(s, from + 1)
    }
}

/// A post's text without its front matter: the first stretch that runs from
/// three dashes to the next three dashes (both included) is cut out; a text
/// without such a stretch is left as it is.
pub open spec fn strip_front_matter(s: Seq<char>) -> Seq<char> {
    match first_dashes_from(s, 0) {
        Some(i) => match first_dashes_from(s, i + 3) {
            Some(j) => s.take(i) + s.skip(j + 3),
            None => s,
        },
        None => s,
    }
}

/// `s` holds no three dashes in a row and does not end with a dash.
pub open spec fn free_of_marks(s: Seq<char>) -> bool {
    &&& forall|m: int| !#[trigger] dashes_at(s, m)
    &&& (s.len() == 0 || s.last() != '-')
}

/// The search finds `k` when three dashes start at `k` and nowhere between `from` and `k`.
proof fn lemma_first_dashes(s: Seq<char>, from: int, k: int)
    requires
        0 <= from <= k,
        dashes_at(s, k),
        forall|m: int| from <= m < k ==> !#[trigger] dashes_at(s, m),
    ensures
        first_dashes_from(s, from) == Some(k),
    decreases k - from,
{
    if from < k {
        lemma_first_dashes(s, from + 1, k);
    }
}

/// No three dashes start inside `a` when `a` is followed by `c`, as long as
/// `a` holds none itself and does not end with a dash.
proof fn lemma_no_mark_inside(a: Seq<char>, c: Seq<char>, m: int)
    requires
        free_of_marks(a),
        0 <= m < a.len(),
    ensures
        !dashes_at(a + c, m),
{
    let s = a + c;
    if dashes_at(s, m) {
        if m + 3 <= a.len() {
            assert(dashes_at(a, m));
        } else if m + 1 == a.len() {
            assert(s[m] == a.last());
        } else {
            assert(s[m + 1] == a.last());
        }
    }
}

/// A post written as a preamble `p`, a front matter `y` between two lines of
/// three dashes, and a body `b` loses exactly its front matter: what remains is
/// `p` followed by `b`. This holds when neither `p` nor `y` holds three dashes
/// in a row or ends with a dash.
pub proof fn law_front_matter_is_cut(p: Seq<char>, y: Seq<char>, b: Seq<char>)
    requires
        free_of_marks(p),
        free_of_marks(y),
    ensures
        strip_front_matter(p + "---"@ + y + "---"@ + b) == p + b,
{
    reveal_strlit("---");
    let d = "---"@;
    let s = p + d + y + d + b;
    let i = p.len() as int;
    let j = i + 3 + y.len();
    assert(dashes_at(s, i));
    assert forall|m: int| 0 <= m < i implies !#[trigger] dashes_at(s, m) by {
        lemma_no_mark_inside(p, d + y + d + b, m);
        assert(s =~= p + (d + y + d + b));
    }
    lemma_first_dashes(s, 0, i);
    assert(dashes_at(s, j));
    assert forall|m: int| i + 3 <= m < j implies !#[trigger] dashes_at(s, m) by {
        let m2 = m - (i + 3);
        lemma_no_mark_inside(y, d + b, m2);
        let t = y + (d + b);
        assert(s.skip(i + 3) =~= t);
        if dashes_at(s, m) {
            assert(t[m2] == s[m]);
            assert(t[m2 + 1] == s[m + 1]);
            assert(t[m2 + 2] == s[m + 2]);
            assert(dashes_at(t, m2));
        }
    }
    lemma_first_dashes(s, i + 3, j);
    assert(s.take(i) + s.skip(j + 3) =~= p + b);
}

/// The search finds nothing when no three dashes start at or after `from`.
proof fn lemma_no_dashes_from(s: Seq<char>, from: int)
    requires
        forall|m: int| from <= m ==> !#[trigger] dashes_at(s, m),
    ensures
        first_dashes_from(s, from) is None,
    decreases s.len() - from,
{
    if 0 <= from && from + 3 <= s.len() {
        lemma_no_dashes_from(s, from + 1);
    }
}

/// A post without three dashes in a row has no front matter: stripping it
/// leaves it as it is.
pub proof fn law_text_without_marks_is_kept(s: Seq<char>)
    requires
        forall|m: int| !#[trigger] dashes_at(s, m),
    ensures
        strip_front_matter(s) == s,
{
    lemma_no_dashes_from(s, 0);
}

/// The characters of `s`, in order.
fn chars_of(s: &str) -> (r: Vec<char>)
    ensures
        r@ == s@,
{
    let mut v: Vec<char> = Vec::new();
    for c in it: s.chars()
        invariant
            v@ == it.seq().take(it.index() as int),
    {
        v.push(c);
    }
    v
}

/// Where, at or after `from`, three dashes first start in `chars`.
fn find_dashes(chars: &Vec<char>, from: usize) -> (r: Option<usize>)
    ensures
        match r {
            Some(k) => first_dashes_from(chars@, from as int) == Some(k as int),
            None => first_dashes_from(chars@, from as int) is None,
        },
        r matches Some(k) ==> from <= k && k + 3 <= chars@.len(),
{
    let n = chars.len();
    let mut k = from;
    while k < n && n - k >= 3
        invariant
            from <= k,
            n == chars@.len(),
            first_dashes_from(chars@, from as int) == first_dashes_from(chars@, k as int),
        decreases n - k,
    {
        if chars[k] == '-' && chars[k + 1] == '-' && chars[k + 2] == '-' {
            return Some(k);
        }
        k = k + 1;
    }
    None
}

/// Cuts the front matter out of a post's text, as `strip_front_matter` says.
pub fn strip_front_matter_text(text: &str) -> (r: String)
    ensures
        r@ == strip_front_matter(text@),
{
    let chars = chars_of(text);
    match find_dashes(&chars, 0) {
        Some(i) => match find_dashes(&chars, i + 3) {
            Some(j) => {
                let n = text.unicode_len();
                let head = text.substring_char(0, i);
                let tail = text.substring_char(j + 3, n);
                let r = String::from_str(head).concat(tail);
                assert(head@ =~= text@.take(i as int));
                assert(tail@ =~= text@.skip(j + 3));
                r
            },
            None => String::from_str(text),
        },
        None => String::from_str(text),
    }
}

impl MarkdownMetadata {
    /// The front matter as it was read, or `YamlConvertionError` with the
    /// reader's message.
    pub fn new(parsed: Result<MarkdownMetadata, String>) -> (r: Result<MarkdownMetadata, ServerError>)
        ensures
            match parsed {
                Ok(m) => r == Ok::<MarkdownMetadata, ServerError>(m),
                Err(e) => r matches Err(ServerError::YamlConvertionError(e2)) && e2@ == e@,
            },
    {
        match parsed {
            Ok(m) => Ok(m),
            Err(e) => Err(ServerError::YamlConvertionError(e)),
        }
    }

    /// The body of a post: its text without the front matter.
    pub fn extract(string_output: &str) -> (r: Result<String, ServerError>)
        ensures
            r matches Ok(t) && t@ == strip_front_matter(string_output@),
    {
        Ok(strip_front_matter_text(string_output))
    }
}

impl Markdown {
    /// A post read from `post_path`: `file` is `None` when the file could not
    /// be read. Fails with `PageNotFound(post_path)` then, and with
    /// `YamlConvertionError` when the front matter could not be read; else the
    /// post holds the front matter and the body, without its front matter,
    /// rendered to HTML with tables enabled.
    pub fn new(post_path: String, file: Option<MarkdownFile>) -> (r: Result<Markdown, ServerError>)
        ensures
            match file {
                None => r matches Err(ServerError::PageNotFound(p)) && p@ == post_path@,
                Some(f) => match f.metadata {
                    Err(e) => r matches Err(ServerError::YamlConvertionError(e2)) && e2@ == e@,
                    Ok(m) => r matches Ok(md) && md.metadata == m
                        && md.content@ == markdown_html(strip_front_matter(f.text@), MARKDOWN_OPTIONS),
                },
            },
    {
        let file = match file {
            Some(f) => f,
            None => return Err(ServerError::PageNotFound(post_path)),
        };
        let MarkdownFile { text, metadata } = file;
        let metadata = MarkdownMetadata::new(metadata)?;
        let content_raw = MarkdownMetadata::extract(text.as_str())?;
        let content = render_html(content_raw.as_str(), MARKDOWN_OPTIONS);
        Ok(Markdown { metadata, content })
    }

    /// Counts one more view of the post `title`, as `increment_views` does.
    pub fn add_views_to_markdown(sqlite_conn: &rusqlite::Connection, title: &str) -> (r: (Result<(), ServerError>, Ghost<ViewStep>))
        ensures
            views_counted(title@, r.1@, r.0),
    {
        Self::increment_views(sqlite_conn, title)
    }

    /// Each post of a blog's folder, whose entries are `entries`, with its
    /// database record, as `listing_holds` says; the lookups made are given
    /// back as a ghost.
    pub fn list_private_markdown_info(
        sqlite_conn: &rusqlite::Connection,
        entries: Vec<PostEntry>,
    ) -> (r: (Result<Vec<(MarkdownMetadata, PostInfo)>, ServerError>, Ghost<Seq<PostSteps>>))
        ensures
            listing_holds(entries@, r.1@, seq_result(r.0)),
    {
        let ghost all = entries@;
        let mut list: Vec<(MarkdownMetadata, PostInfo)> = Vec::new();
        let ghost mut lookups: Seq<PostSteps> = Seq::empty();
        let ghost mut idx: int = 0;
        for entry in it: entries.into_iter()
            invariant
                it.seq() == all,
                idx == it.index(),
                scan_entries(all.take(idx)).1 is None,
                lookups.len() == list@.len(),
                scan_entries(all.take(idx)).0.len() == list@.len(),
                forall|k: int| 0 <= k < list@.len() ==> (#[trigger] list@[k]).0 == scan_entries(all.take(idx)).0[k]
                    && post_steps_for(list@[k].0.filename@, lookups[k])
                    && post_outcome(lookups[k]) == Ok::<PostInfo, ServerError>(list@[k].1),
        {
            assert(all.take(idx + 1).drop_last() =~= all.take(idx));
            assert(all.take(idx + 1).last() == entry);
            proof { lemma_scan_prefix(all, idx + 1); }
            match entry {
                PostEntry::Folder => {},
                PostEntry::FileTypeError(e) => {
                    proof { lemma_listing_stopped(all, idx + 1, lookups, list@); }
                    return (Err(ServerError::IOError(e)), Ghost(lookups));
                },
                PostEntry::Unreadable(p) => {
                    proof { lemma_listing_stopped(all, idx + 1, lookups, list@); }
                    return (Err(ServerError::PageNotFound(p)), Ghost(lookups));
                },
                PostEntry::File(Ok(metadata)) => {
                    let (found, steps) = Self::find_or_create_post(sqlite_conn, metadata.filename.as_str());
                    match found {
                        Ok(post) => {
                            proof { lookups = lookups.push(steps@); }
                            list.push((metadata, post));
                        },
                        Err(e) => {
                            proof {
                                let before = lookups;
                                lookups = lookups.push(steps@);
                                lemma_listing_failed(all, idx + 1, before, list@, steps@);
                            }
                            return (Err(e), Ghost(lookups));
                        },
                    }
                },
                PostEntry::File(Err(_)) => {},
            }
            proof { idx = idx + 1; }
        }
        assert(all.take(idx) =~= all);
        assert(list@.len() == scan_entries(all).0.len());
        assert forall|k: int| 0 <= k < lookups.len() implies post_steps_for(scan_entries(all).0[k].filename@, #[trigger] lookups[k]) by {
            assert(list@[k].0 == scan_entries(all.take(idx)).0[k]);
        }
        assert forall|k: int| 0 <= k < lookups.len() - 1 implies (#[trigger] post_outcome(lookups[k])) is Ok by {
            assert(list@[k].0 == scan_entries(all.take(idx)).0[k]);
        }
        (Ok(list), Ghost(lookups))
    }

    /// A post read from `full_file_path` with its database record: `file` is
    /// `None` when the file could not be read, which fails with
    /// `PageNotFound(full_file_path)`; a front matter that cannot be read
    /// fails with `YamlConvertionError`; in both cases nothing is looked up.
    /// Else the record is looked up by the post's filename (the lookup is
    /// given back as a ghost), and the post is paired with what it gave.
    pub fn list_markdown_info_of_a_post(
        sqlite_conn: &rusqlite::Connection,
        full_file_path: String,
        file: Option<MarkdownFile>,
    ) -> (r: (Result<(MarkdownMetadata, PostInfo), ServerError>, Ghost<Option<PostSteps>>))
        ensures
            post_info_holds(full_file_path@, file, r.1@, r.0),
    {
        let file = match file {
            Some(f) => f,
            None => return (Err(ServerError::PageNotFound(full_file_path)), Ghost(None)),
        };
        let metadata = match MarkdownMetadata::new(file.metadata) {
            Ok(m) => m,
            Err(e) => return (Err(e), Ghost(None)),
        };
        let (found, steps) = Self::find_or_create_post(sqlite_conn, metadata.filename.as_str());
        match found {
            Ok(post) => (Ok((metadata, post)), Ghost(Some(steps@))),
            Err(e) => (Err(e), Ghost(Some(steps@))),
        }
    }
}

impl SqliteOperations for Markdown {}

/// The walk of a prefix of the entries is the start of the walk of them all:
/// its posts come first, and a walk that stopped stays stopped.
proof fn lemma_scan_prefix(all: Seq<PostEntry>, n: int)
    requires
        0 <= n <= all.len(),
    ensures
        scan_entries(all.take(n)).0.len() <= scan_entries(all).0.len(),
        forall|k: int| 0 <= k < scan_entries(all.take(n)).0.len()
            ==> #[trigger] scan_entries(all.take(n)).0[k] == scan_entries(all).0[k],
        scan_entries(all.take(n)).1 is Some ==> scan_entries(all) == scan_entries(all.take(n)),
    decreases all.len() - n,
{
    if n < all.len() {
        assert(all.take(n + 1).drop_last() =~= all.take(n));
        lemma_scan_prefix(all, n + 1);
        let short = scan_entries(all.take(n)).0;
        let long = scan_entries(all.take(n + 1)).0;
        assert forall|k: int| 0 <= k < short.len() implies #[trigger] short[k] == scan_entries(all).0[k] by {
            assert(long[k] == short[k]);
            assert(long[k] == scan_entries(all).0[k]);
        }
    } else {
        assert(all.take(n) =~= all);
    }
}

/// The listing stops at an entry whose kind or text cannot be read, after
/// all lookups so far succeeded.
proof fn lemma_listing_stopped(
    all: Seq<PostEntry>,
    n: int,
    lookups: Seq<PostSteps>,
    list: Seq<(MarkdownMetadata, PostInfo)>,
)
    requires
        0 < n <= all.len(),
        scan_entries(all.take(n)).1 is Some,
        scan_entries(all.take(n)).0.len() == list.len(),
        lookups.len() == list.len(),
        forall|k: int| 0 <= k < list.len() ==> (#[trigger] list[k]).0 == scan_entries(all.take(n)).0[k]
            && post_steps_for(list[k].0.filename@, lookups[k])
            && post_outcome(lookups[k]) == Ok::<PostInfo, ServerError>(list[k].1),
    ensures
        listing_holds(all, lookups, Err(scan_entries(all.take(n)).1->Some_0)),
{
    lemma_scan_prefix(all, n);
    assert forall|k: int| 0 <= k < lookups.len() implies post_steps_for(scan_entries(all).0[k].filename@, #[trigger] lookups[k]) by {
        assert(list[k].0 == scan_entries(all.take(n)).0[k]);
    }
    assert forall|k: int| 0 <= k < lookups.len() - 1 implies (#[trigger] post_outcome(lookups[k])) is Ok by {
        assert(list[k].0 == scan_entries(all.take(n)).0[k]);
    }
    if lookups.len() > 0 {
        let k = lookups.len() - 1;
        assert(list[k].0 == scan_entries(all.take(n)).0[k]);
    }
}

/// The listing stops at a lookup that fails, after all earlier ones succeeded.
proof fn lemma_listing_failed(
    all: Seq<PostEntry>,
    n: int,
    before: Seq<PostSteps>,
    list: Seq<(MarkdownMetadata, PostInfo)>,
    last: PostSteps,
)
    requires
        0 < n <= all.len(),
        scan_entries(all.take(n)).1 is None,
        scan_entries(all.take(n)).0.len() == list.len() + 1,
        before.len() == list.len(),
        forall|k: int| 0 <= k < list.len() ==> (#[trigger] list[k]).0 == scan_entries(all.take(n)).0[k]
            && post_steps_for(list[k].0.filename@, before[k])
            && post_outcome(before[k]) == Ok::<PostInfo, ServerError>(list[k].1),
        post_steps_for(scan_entries(all.take(n)).0[list.len() as int].filename@, last),
        post_outcome(last) is Err,
    ensures
        listing_holds(all, before.push(last), Err(post_outcome(last)->Err_0)),
{
    lemma_scan_prefix(all, n);
    let lookups = before.push(last);
    assert forall|k: int| 0 <= k < lookups.len() implies post_steps_for(scan_entries(all).0[k].filename@, #[trigger] lookups[k]) by {
        if k < list.len() {
            assert(list[k].0 == scan_entries(all.take(n)).0[k]);
        }
    }
    assert forall|k: int| 0 <= k < lookups.len() - 1 implies (#[trigger] post_outcome(lookups[k])) is Ok by {
        assert(list[k].0 == scan_entries(all.take(n)).0[k]);
    }
}

} // verus!
