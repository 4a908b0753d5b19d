use vstd::prelude::*;

use crate::config::blog::Blog;
use crate::error::ServerError;
use crate::model::markdown::{
    law_listing_is_determined, listing_holds, markdown_html, post_info_holds, seq_result,
    strip_front_matter, Markdown, MarkdownFile, MarkdownMetadata, PostEntry, MARKDOWN_OPTIONS,
};
use crate::model::sqlite::{
    view_outcome, view_step_for, views_counted, OpenStep, PostInfo, PostSteps, ViewStep,
};
use crate::state::{AppState, EnvState};

verus! {

/// The file of the post `name` in the folder `folder`: `{folder}/{name}.md`.
pub open spec fn post_path_text(folder: Seq<char>, name: Seq<char>) -> Seq<char> {
    folder + "/"@ + name + ".md"@
}

/// A post's file lies in its folder and is named after the post: its path is
/// the folder, a slash, the name and ".md", and nothing else.
pub proof fn law_post_path_parts(folder: Seq<char>, name: Seq<char>)
    ensures
        post_path_text(folder, name).len() == folder.len() + name.len() + 4,
        post_path_text(folder, name).take(folder.len() as int) == folder,
        post_path_text(folder, name)[folder.len() as int] == '/',
        post_path_text(folder, name).subrange(folder.len() + 1int, folder.len() + 1int + name.len()) == name,
        post_path_text(folder, name).skip(folder.len() + 1int + name.len()) == ".md"@,
{
    reveal_strlit("/");
    reveal_strlit(".md");
    let p = post_path_text(folder, name);
    assert(p.take(folder.len() as int) =~= folder);
    assert(p.subrange(folder.len() + 1int, folder.len() + 1int + name.len()) =~= name);
    assert(p.skip(folder.len() + 1int + name.len()) =~= ".md"@);
}

/// The texts of `list` joined, with `sep` between each two of them.
pub open spec fn seq_join(list: Seq<Seq<char>>, sep: Seq<char>) -> Seq<char>
    decreases list.len(),
{
    if list.len() == 0 {
        Seq::empty()
    } else if list.len() == 1 {
        list[0]
    } else {
        seq_join(list.drop_last(), sep) + sep + list.last()
    }
}

/// The texts of a list of strings.
pub open spec fn texts(list: Seq<String>) -> Seq<Seq<char>> {
    list.map_values(|s: String| s@)
}

/// The text of an optional string; empty when there is none.
pub open spec fn text_or_empty(s: Option<String>) -> Seq<char> {
    match s {
        Some(t) => t@,
        None => Seq::empty(),
    }
}

/// The names of a post's similar posts; none when the front matter lists none.
pub open spec fn similar_names(m: MarkdownMetadata) -> Seq<String> {
    match m.similar_posts {
        Some(v) => v@,
        None => Seq::empty(),
    }
}

/// The headers that go with a post's body when it is served as plain text:
/// its type, and its title, description, author, image preview and tags
/// (joined with commas); a missing field is sent empty.
pub open spec fn content_headers_spec(m: MarkdownMetadata) -> Seq<(Seq<char>, Seq<char>)> {
    seq![
        ("content-type"@, "text/plain"@),
        ("X-Content-Title"@, m.title@),
        ("X-Content-Description"@, m.description@),
        ("X-Content-Author"@, text_or_empty(m.author)),
        ("X-Content-Image-Preview"@, text_or_empty(m.image_preview)),
        ("X-Content-Tags"@, seq_join(texts(match m.tags { Some(v) => v@, None => Seq::empty() }), ","@)),
    ]
}

/// The posts that were found, in order; the failed lookups are left out.
pub open spec fn found_only<T, E>(s: Seq<Result<T, E>>) -> Seq<T>
    decreases s.len(),
{
    if s.len() == 0 {
        Seq::empty()
    } else {
        let r = found_only(s.drop_last());
        match s.last() {
            Ok(v) => r.push(v),
            Err(_) => r,
        }
    }
}

/// Joining nothing gives the empty text, and joining one text gives it
/// unchanged.
pub proof fn law_join_of_none_or_one(t: Seq<char>, sep: Seq<char>)
    ensures
        seq_join(Seq::empty(), sep) == Seq::<char>::empty(),
        seq_join(seq![t], sep) == t,
{
}

/// Joining appends every part: one more text after at least one is added
/// after the separator, whatever came before.
pub proof fn law_join_appends_each_part(list: Seq<Seq<char>>, t: Seq<char>, sep: Seq<char>)
    requires
        list.len() > 0,
    ensures
        seq_join(list.push(t), sep) == seq_join(list, sep) + sep + t,
        seq_join(list.push(t), sep).len() == seq_join(list, sep).len() + sep.len() + t.len(),
{
    assert(list.push(t).drop_last() =~= list);
}

/// The joined text of `n` parts is as long as the parts together, with
/// `n - 1` separators.
pub proof fn law_join_length(list: Seq<Seq<char>>, sep: Seq<char>)
    requires
        list.len() > 0,
    ensures
        seq_join(list, sep).len() == total_len(list) + (list.len() - 1) * sep.len(),
    decreases list.len(),
{
    let n = list.len() as int;
    let m = sep.len() as int;
    if n > 1 {
        law_join_length(list.drop_last(), sep);
        assert((n - 1) * m == (n - 2) * m + m) by (nonlinear_arith);
        assert(seq_join(list, sep) == seq_join(list.drop_last(), sep) + sep + list.last());
    } else {
        assert(list.drop_last() =~= Seq::<Seq<char>>::empty());
        assert(total_len(list.drop_last()) == 0);
        assert((n - 1) * m == 0);
    }
}

/// The length of all the texts of `list` together.
pub open spec fn total_len(list: Seq<Seq<char>>) -> int
    decreases list.len(),
{
    if list.len() == 0 {
        0
    } else {
        total_len(list.drop_last()) + list.last().len()
    }
}

/// Keeping what was found drops nothing that was found: nothing is kept of no
/// outcome, a found post is added after those kept before it, and a failed
/// lookup adds nothing.
pub proof fn law_found_posts_are_kept<T, E>(s: Seq<Result<T, E>>, v: T, e: E)
    ensures
        found_only(Seq::<Result<T, E>>::empty()) == Seq::<T>::empty(),
        found_only(s.push(Ok(v))) == found_only(s).push(v),
        found_only(s.push(Err(e))) == found_only(s),
        found_only(s.push(Ok(v))).len() == found_only(s).len() + 1,
{
    assert(s.push(Ok::<T, E>(v)).drop_last() =~= s);
    assert(s.push(Err::<T, E>(e)).drop_last() =~= s);
}

/// Every outcome of the lookups that found a post is kept: there are as many
/// posts kept as found outcomes.
pub proof fn law_found_count(s: Seq<Result<(MarkdownMetadata, PostInfo), ServerError>>)
    ensures
        found_only(s).len() == s.filter(|x: Result<(MarkdownMetadata, PostInfo), ServerError>| x is Ok).len(),
    decreases s.len(),
{
    reveal(Seq::filter);
    if s.len() > 0 {
        law_found_count(s.drop_last());
    }
}

/// The file of the post `name` in the folder `folder`.
pub fn post_file_path(folder: &str, name: &str) -> (r: String)
    ensures
        r@ == post_path_text(folder@, name@),
{
    String::from_str(folder).concat("/").concat(name).concat(".md")
}

/// The strings of `parts` joined, with `sep` between each two of them.
pub fn join_strings(parts: &Vec<String>, sep: &str) -> (r: String)
    ensures
        r@ == seq_join(texts(parts@), sep@),
{
    let ghost all = texts(parts@);
    let mut res = String::new();
    let n = parts.len();
    let mut i: usize = 0;
    while i < n
        invariant
            n == parts@.len(),
            all == texts(parts@),
            i <= n,
            res@ == seq_join(all.take(i as int), sep@),
        decreases n - i,
    {
        assert(all.take(i + 1).drop_last() =~= all.take(i as int));
        if i != 0 {
            res = res.concat(sep);
        }
        res = res.concat(parts[i].as_str());
        proof {
            if i == 0 {
                assert(all.take(1) =~= seq![parts@[0]@]);
            }
        }
        i = i + 1;
    }
    assert(all.take(n as int) =~= all);
    res
}

/// An optional string's text, or the empty string.
fn string_or_empty(s: &Option<String>) -> (r: String)
    ensures
        r@ == text_or_empty(*s),
{
    match s {
        Some(t) => t.clone(),
        None => String::new(),
    }
}

/// The headers that go with a post's body when it is served as plain text.
pub fn content_headers(metadata: &MarkdownMetadata) -> (r: Vec<(String, String)>)
    ensures
        r@.len() == 6,
        forall|k: int| 0 <= k < 6 ==> (#[trigger] r@[k]).0@ == content_headers_spec(*metadata)[k].0
            && r@[k].1@ == content_headers_spec(*metadata)[k].1,
{
    let mut r: Vec<(String, String)> = Vec::new();
    r.push((String::from_str("content-type"), String::from_str("text/plain")));
    r.push((String::from_str("X-Content-Title"), metadata.title.clone()));
    r.push((String::from_str("X-Content-Description"), metadata.description.clone()));
    r.push((String::from_str("X-Content-Author"), string_or_empty(&metadata.author)));
    r.push((String::from_str("X-Content-Image-Preview"), string_or_empty(&metadata.image_preview)));
    let tags = match &metadata.tags {
        Some(v) => join_strings(v, ","),
        None => {
            let empty: Vec<String> = Vec::new();
            let t = join_strings(&empty, ",");
            assert(empty@ =~= Seq::<String>::empty());
            t
        },
    };
    r.push((String::from_str("X-Content-Tags"), tags));
    r
}

/// The files of a post's similar posts, in the order its front matter lists
/// them, each in the folder `folder`.
pub fn similar_post_paths(folder: &str, metadata: &MarkdownMetadata) -> (r: Vec<String>)
    ensures
        r@.len() == similar_names(*metadata).len(),
        forall|k: int| 0 <= k < r@.len() ==> (#[trigger] r@[k])@ == post_path_text(folder@, similar_names(*metadata)[k]@),
{
    let mut r: Vec<String> = Vec::new();
    match &metadata.similar_posts {
        Some(names) => {
            let n = names.len();
            let mut i: usize = 0;
            while i < n
                invariant
                    n == names@.len(),
                    similar_names(*metadata) == names@,
                    i <= n,
                    r@.len() == i,
                    forall|k: int| 0 <= k < i ==> (#[trigger] r@[k])@ == post_path_text(folder@, names@[k]@),
                decreases n - i,
            {
                r.push(post_file_path(folder, names[i].as_str()));
                i = i + 1;
            }
        },
        None => {},
    }
    r
}

/// The outcome that reading a post gives, as `Markdown::new` states it: the
/// post's front matter and its rendered body, or the error.
pub open spec fn read_outcome(post_path: Seq<char>, file: Option<MarkdownFile>) -> Result<(MarkdownMetadata, Seq<char>), Option<Seq<char>>> {
    match file {
        None => Err(None),
        Some(f) => match f.metadata {
            Err(e) => Err(Some(e@)),
            Ok(m) => Ok((m, markdown_html(strip_front_matter(f.text@), MARKDOWN_OPTIONS))),
        },
    }
}

/// `r` is a failure that reading the post at `post_path` from `file` gives:
/// `PageNotFound(post_path)` when the file could not be read, else
/// `YamlConvertionError` with the reader's message.
pub open spec fn is_read_error(e: ServerError, post_path: Seq<char>, file: Option<MarkdownFile>) -> bool {
    match read_outcome(post_path, file) {
        Err(None) => e matches ServerError::PageNotFound(p) && p@ == post_path,
        Err(Some(m)) => e matches ServerError::YamlConvertionError(m2) && m2@ == m,
        Ok(_) => false,
    }
}

/// A post served as plain text: the post `postname` of `blog_config`'s folder,
/// read from `file`, and the headers that go with its body. The database at
/// `state.sqlite_path` is opened first (a failed open is its `DBError`), then
/// the post is read (a failure is the read's error); only then is one more
/// view of `postname` counted, as `Markdown::add_views_to_markdown` says, and
/// a failed count is its `DBError`. The open and the count are given back as
/// a ghost.
pub fn load_markdown_content_api(
    state: &EnvState,
    postname: &str,
    blog_config: &Blog,
    file: Option<MarkdownFile>,
) -> (r: (Result<(Markdown, Vec<(String, String)>), ServerError>, Ghost<(OpenStep, Option<ViewStep>)>))
    ensures
        r.1@.0.path == state.sqlite_path@,
        match r.1@.0.answer {
            Err(e) => r.0 == Err::<(Markdown, Vec<(String, String)>), ServerError>(ServerError::DBError(e))
                && r.1@.1 is None,
            Ok(_) => match r.1@.1 {
                None => r.0 matches Err(e) && is_read_error(e, post_path_text(blog_config.path@, postname@), file),
                Some(step) => read_outcome(post_path_text(blog_config.path@, postname@), file) is Ok
                    && views_counted(postname@, step, match r.0 { Ok(_) => Ok(()), Err(e) => Err(e) })
                    && (r.0 matches Ok((md, headers)) ==> read_outcome(post_path_text(blog_config.path@, postname@), file)
                            == Ok::<(MarkdownMetadata, Seq<char>), Option<Seq<char>>>((md.metadata, md.content@))
                        && headers@.len() == 6
                        && forall|k: int| 0 <= k < 6 ==> (#[trigger] headers@[k]).0@ == content_headers_spec(md.metadata)[k].0
                            && headers@[k].1@ == content_headers_spec(md.metadata)[k].1),
            },
        },
{
    let (opened, open) = state.get_connection();
    let connection = match opened {
        Ok(c) => c,
        Err(e) => return (Err(e), Ghost((open@, None))),
    };
    let path = post_file_path(blog_config.path.as_str(), postname);
    let markdown = match Markdown::new(path, file) {
        Ok(m) => m,
        Err(e) => return (Err(e), Ghost((open@, None))),
    };
    let (counted, step) = Markdown::add_views_to_markdown(&connection, postname);
    match counted {
        Ok(_) => {},
        Err(e) => return (Err(e), Ghost((open@, Some(step@)))),
    }
    let headers = content_headers(&markdown.metadata);
    (Ok((markdown, headers)), Ghost((open@, Some(step@))))
}

/// `r` is what the list API gives for a blog whose folder holds `entries`,
/// where `g` is the open of the database and the listing's lookups: the
/// database at `path` is opened; a failed open is its `DBError`, with no
/// lookup; else the result is the folder's listing, as `listing_holds` says.
pub open spec fn list_api_holds(
    path: Seq<char>,
    entries: Seq<PostEntry>,
    g: (OpenStep, Option<Seq<PostSteps>>),
    r: Result<Seq<(MarkdownMetadata, PostInfo)>, ServerError>,
) -> bool {
    &&& g.0.path == path
    &&& match g.0.answer {
        Err(e) => r == Err::<Seq<(MarkdownMetadata, PostInfo)>, ServerError>(ServerError::DBError(e)) && g.1 is None,
        Ok(_) => g.1 matches Some(lookups) && listing_holds(entries, lookups, r),
    }
}

/// The posts of a user's blog with their records: the blog's folder holds
/// `entries`. The database at `state.sqlite_path` is opened, and the folder is
/// listed with `Markdown::list_private_markdown_info`, as `list_api_holds`
/// says; the open and the lookups are given back as a ghost.
pub fn markdown_list_api(
    state: &EnvState,
    entries: Vec<PostEntry>,
) -> (r: (Result<Vec<(MarkdownMetadata, PostInfo)>, ServerError>, Ghost<(OpenStep, Option<Seq<PostSteps>>)>))
    ensures
        list_api_holds(state.sqlite_path@, entries@, r.1@, seq_result(r.0)),
{
    let (opened, open) = state.get_connection();
    let sqlite_conn = match opened {
        Ok(c) => c,
        Err(e) => return (Err(e), Ghost((open@, None))),
    };
    let (list, lookups) = Markdown::list_private_markdown_info(&sqlite_conn, entries);
    (list, Ghost((open@, Some(lookups@))))
}

/// The list API answers what listing the folder answers: when the database
/// opens, its result is the listing's result for the same answers of the
/// database; when it does not, it is the open's `DBError`.
pub proof fn law_list_api_is_the_listing(
    path: Seq<char>,
    entries: Seq<PostEntry>,
    g: (OpenStep, Option<Seq<PostSteps>>),
    api: Result<Seq<(MarkdownMetadata, PostInfo)>, ServerError>,
    lookups: Seq<PostSteps>,
    listed: Result<Seq<(MarkdownMetadata, PostInfo)>, ServerError>,
)
    requires
        list_api_holds(path, entries, g, api),
        listing_holds(entries, lookups, listed),
        g.0.answer is Ok ==> g.1 == Some(lookups),
    ensures
        match g.0.answer {
            Err(e) => api == Err::<Seq<(MarkdownMetadata, PostInfo)>, ServerError>(ServerError::DBError(e)),
            Ok(_) => api == listed,
        },
{
    if g.0.answer is Ok {
        law_listing_is_determined(entries, lookups, api, listed);
    }
}

/// The similar posts of a post that were found, each with its record, in the
/// order of `files` (each similar post's file path and what reading it gave):
/// every one is read and looked up as `Markdown::list_markdown_info_of_a_post`
/// does, and those that fail are dropped. The lookups and their outcomes are
/// given back as a ghost.
pub fn similar_posts_found(
    sqlite_conn: &rusqlite::Connection,
    files: Vec<(String, Option<MarkdownFile>)>,
) -> (r: (
    Vec<(MarkdownMetadata, PostInfo)>,
    Ghost<(Seq<Option<PostSteps>>, Seq<Result<(MarkdownMetadata, PostInfo), ServerError>>)>,
))
    ensures
        r.1@.0.len() == files@.len(),
        r.1@.1.len() == files@.len(),
        forall|k: int| 0 <= k < files@.len()
            ==> post_info_holds((#[trigger] files@[k]).0@, files@[k].1, r.1@.0[k], r.1@.1[k]),
        r.0@ == found_only(r.1@.1),
{
    let ghost all = files@;
    let mut found: Vec<(MarkdownMetadata, PostInfo)> = Vec::new();
    let ghost mut steps: Seq<Option<PostSteps>> = Seq::empty();
    let ghost mut outcomes: Seq<Result<(MarkdownMetadata, PostInfo), ServerError>> = Seq::empty();
    for item in it: files.into_iter()
        invariant
            it.seq() == all,
            steps.len() == it.index(),
            outcomes.len() == it.index(),
            forall|k: int| 0 <= k < steps.len()
                ==> post_info_holds((#[trigger] all[k]).0@, all[k].1, steps[k], outcomes[k]),
            found@ == found_only(outcomes),
    {
        let ghost k = steps.len() as int;
        assert(all[k] == item);
        let (path, file) = item;
        let (outcome, step) = Markdown::list_markdown_info_of_a_post(sqlite_conn, path, file);
        proof {
            assert(outcomes.push(outcome).drop_last() =~= outcomes);
            steps = steps.push(step@);
            outcomes = outcomes.push(outcome);
        }
        match outcome {
            Ok(v) => found.push(v),
            Err(_) => {},
        }
    }
    (found, Ghost((steps, outcomes)))
}

/// The files of the similar posts of the post `postname` of `blog_config`'s
/// folder (its file `{folder}/{postname}.md` read from `file`), in that
/// folder, to be looked up in turn. Fails as reading the post fails.
pub fn load_markdown_similar_posts_api(
    postname: &str,
    file: Option<MarkdownFile>,
    blog_config: &Blog,
) -> (r: Result<Vec<String>, ServerError>)
    ensures
        match read_outcome(post_path_text(blog_config.path@, postname@), file) {
            Ok((m, _)) => r matches Ok(paths) && paths@.len() == similar_names(m).len()
                && forall|k: int| 0 <= k < paths@.len() ==> (#[trigger] paths@[k])@
                    == post_path_text(blog_config.path@, similar_names(m)[k]@),
            Err(_) => r matches Err(e) && is_read_error(e, post_path_text(blog_config.path@, postname@), file),
        },
{
    let path = post_file_path(blog_config.path.as_str(), postname);
    let markdown = Markdown::new(path, file)?;
    Ok(similar_post_paths(blog_config.path.as_str(), &markdown.metadata))
}

/// A post shown as a page. The database at `state.env_state.sqlite_path` is
/// opened (a failed open is its `DBError`, and nothing is counted), then one
/// more view of `postname` is counted, as `Markdown::add_views_to_markdown`
/// says (a failed count is its `DBError`), then the post is read from `file`
/// (the post's file in the server's own folder). The result holds the post
/// and the files of its similar posts, to be read and then looked up with
/// `similar_posts_found`. The open and the count are given back as a ghost.
pub fn show(
    state: &AppState,
    postname: &str,
    file: Option<MarkdownFile>,
) -> (r: (Result<(Markdown, Vec<String>), ServerError>, Ghost<(OpenStep, Option<ViewStep>)>))
    ensures
        r.1@.0.path == state.env_state.sqlite_path@,
        match r.1@.0.answer {
            Err(e) => r.0 == Err::<(Markdown, Vec<String>), ServerError>(ServerError::DBError(e)) && r.1@.1 is None,
            Ok(_) => r.1@.1 matches Some(step) && view_step_for(postname@, step) && match view_outcome(step) {
                Err(e) => r.0 == Err::<(Markdown, Vec<String>), ServerError>(e),
                Ok(_) => match r.0 {
                    Ok((md, paths)) => read_outcome(post_path_text(state.config_state.blog_config.application@, postname@), file)
                        == Ok::<(MarkdownMetadata, Seq<char>), Option<Seq<char>>>((md.metadata, md.content@))
                        && paths@.len() == similar_names(md.metadata).len()
                        && forall|k: int| 0 <= k < paths@.len() ==> (#[trigger] paths@[k])@
                            == post_path_text(state.config_state.blog_config.application@, similar_names(md.metadata)[k]@),
                    Err(e) => is_read_error(e, post_path_text(state.config_state.blog_config.application@, postname@), file),
                },
            },
        },
{
    let (opened, open) = state.env_state.get_connection();
    let connection = match opened {
        Ok(c) => c,
        Err(e) => return (Err(e), Ghost((open@, None))),
    };
    let (counted, step) = Markdown::add_views_to_markdown(&connection, postname);
    match counted {
        Ok(_) => {},
        Err(e) => return (Err(e), Ghost((open@, Some(step@)))),
    }
    let folder = state.config_state.blog_config.application.as_str();
    let post_full_name = post_file_path(folder, postname);
    let markdown = match Markdown::new(post_full_name, file) {
        Ok(m) => m,
        Err(e) => return (Err(e), Ghost((open@, Some(step@)))),
    };
    let paths = similar_post_paths(folder, &markdown.metadata);
    (Ok((markdown, paths)), Ghost((open@, Some(step@))))
}

} // verus!
