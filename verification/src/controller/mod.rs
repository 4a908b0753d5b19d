use vstd::prelude::*;

use crate::config::blog::Blog;
use crate::error::ServerError;
use crate::model::markdown::{listing_holds, seq_result, Markdown, MarkdownMetadata, PostEntry};
use crate::model::sqlite::{OpenStep, PostInfo, PostSteps};
use crate::state::{AppState, ConfigState};

pub mod blog;

verus! {

/// The posts of `l` that are finished, in order.
pub open spec fn keep_finished(l: Seq<(MarkdownMetadata, PostInfo)>) -> Seq<(MarkdownMetadata, PostInfo)>
    decreases l.len(),
{
    if l.len() == 0 {
        Seq::empty()
    } else {
        let r = keep_finished(l.drop_last());
        if l.last().0.finished {
            r.push(l.last())
        } else {
            r
        }
    }
}

/// The home page keeps every finished post and only those, in order: nothing
/// is kept of no post, a finished post is added after those kept before it,
/// and an unfinished one adds nothing.
pub proof fn law_finished_posts_are_kept(l: Seq<(MarkdownMetadata, PostInfo)>, x: (MarkdownMetadata, PostInfo))
    ensures
        keep_finished(Seq::empty()) == Seq::<(MarkdownMetadata, PostInfo)>::empty(),
        x.0.finished ==> keep_finished(l.push(x)) == keep_finished(l).push(x),
        !x.0.finished ==> keep_finished(l.push(x)) == keep_finished(l),
{
    assert(l.push(x).drop_last() =~= l);
}

/// There are as many posts on the home page as finished posts in the listing.
pub proof fn law_finished_count(l: Seq<(MarkdownMetadata, PostInfo)>)
    ensures
        keep_finished(l).len() == l.filter(|x: (MarkdownMetadata, PostInfo)| x.0.finished).len(),
    decreases l.len(),
{
    reveal(Seq::filter);
    if l.len() > 0 {
        law_finished_count(l.drop_last());
    }
}

/// What the home page gives of a listing: its finished posts, in order, or
/// its error.
pub open spec fn finished_of(
    l: Result<Seq<(MarkdownMetadata, PostInfo)>, ServerError>,
) -> Result<Seq<(MarkdownMetadata, PostInfo)>, ServerError> {
    match l {
        Ok(s) => Ok(keep_finished(s)),
        Err(e) => Err(e),
    }
}

/// The home page of a listing that succeeded holds its finished posts; a
/// failed listing's error is the home page's error.
pub proof fn law_home_of_a_listing(l: Seq<(MarkdownMetadata, PostInfo)>, e: ServerError)
    ensures
        finished_of(Ok(l)) == Ok::<Seq<(MarkdownMetadata, PostInfo)>, ServerError>(keep_finished(l)),
        finished_of(Err(e)) == Err::<Seq<(MarkdownMetadata, PostInfo)>, ServerError>(e),
{
}

/// The finished posts of `list`, in order.
pub fn finished_posts(list: Vec<(MarkdownMetadata, PostInfo)>) -> (r: Vec<(MarkdownMetadata, PostInfo)>)
    ensures
        r@ == keep_finished(list@),
{
    let ghost all = list@;
    let mut kept: Vec<(MarkdownMetadata, PostInfo)> = Vec::new();
    let ghost mut idx: int = 0;
    for item in it: list.into_iter()
        invariant
            it.seq() == all,
            idx == it.index(),
            kept@ == keep_finished(all.take(idx)),
    {
        assert(all.take(idx + 1).drop_last() =~= all.take(idx));
        assert(all.take(idx + 1).last() == item);
        if item.0.finished {
            kept.push(item);
        }
        proof { idx = idx + 1; }
    }
    assert(all.take(idx) =~= all);
    kept
}

/// The blog whose posts the home page lists: the server's own folder, under
/// the application's own user.
pub fn home_blog(config_state: &ConfigState) -> (r: Blog)
    ensures
        r.path@ == config_state.blog_config.application@,
        r.user@ == "application_main_user"@,
{
    Blog {
        path: config_state.blog_config.application.clone(),
        user: String::from_str("application_main_user"),
    }
}

/// The posts the home page lists. The database at `state.env_state.sqlite_path`
/// is opened (a failed open is its `DBError`, and nothing is looked up; the
/// open is given back as a ghost); then the server's own folder, whose
/// entries are `entries`, is listed as `Markdown::list_private_markdown_info`
/// does (the lookups it made and what it gave are given back as a ghost), and
/// the listing's finished posts are kept, in order, with their records; a
/// failed listing gives its error.
pub fn home(state: &AppState, entries: Vec<PostEntry>) -> (r: (
    Result<Vec<(MarkdownMetadata, PostInfo)>, ServerError>,
    Ghost<(OpenStep, Option<(Seq<PostSteps>, Result<Seq<(MarkdownMetadata, PostInfo)>, ServerError>)>)>,
))
    ensures
        r.1@.0.path == state.env_state.sqlite_path@,
        match r.1@.0.answer {
            Err(e) => r.0 == Err::<Vec<(MarkdownMetadata, PostInfo)>, ServerError>(ServerError::DBError(e)) && r.1@.1 is None,
            Ok(_) => r.1@.1 matches Some((lookups, listed))
                && listing_holds(entries@, lookups, listed) && seq_result(r.0) == finished_of(listed),
        },
        r.0 matches Ok(l) ==> forall|k: int| 0 <= k < l@.len() ==> (#[trigger] l@[k]).0.finished,
{
    let (opened, open) = state.env_state.get_connection();
    let sqlite_conn = match opened {
        Ok(c) => c,
        Err(e) => return (Err(e), Ghost((open@, None))),
    };
    let (listed, lookups) = Markdown::list_private_markdown_info(&sqlite_conn, entries);
    let ghost whole = seq_result(listed);
    match listed {
        Ok(list) => {
            let ghost before = list@;
            let kept = finished_posts(list);
            proof { lemma_keep_finished_all_finished(before); }
            (Ok(kept), Ghost((open@, Some((lookups@, whole)))))
        },
        Err(e) => (Err(e), Ghost((open@, Some((lookups@, whole))))),
    }
}

proof fn lemma_keep_finished_all_finished(l: Seq<(MarkdownMetadata, PostInfo)>)
    ensures
        forall|k: int| 0 <= k < keep_finished(l).len() ==> (#[trigger] keep_finished(l)[k]).0.finished,
    decreases l.len(),
{
    if l.len() > 0 {
        lemma_keep_finished_all_finished(l.drop_last());
    }
}

} // verus!
