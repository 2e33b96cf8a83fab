//! Properties of the player that hold across its operations.
use vstd::prelude::*;
use crate::app::{
    after_next, after_page_down, after_page_up, after_prev, initial_view,
    matching_indices, passes_filter, playlist_count, recorded, refiltered, selected_index,
    ActiveTab, AppView,
};
use crate::browser::{
    chars_lt, is_hidden, key_class, listed_entries, listed_entry, rank, sort_key, stably_sorted,
};
use crate::keys::{
    add_outcome, after_directory_load, after_queue_refresh, after_resume, after_status_refresh,
    after_tick, key_step, startup_step, EffectView, Key, KeyPress, PendingAddView,
};
use crate::mpd_client::{CommandView, DirEntryView, PlaybackState, SongView, StatusView};
use std::time::Instant;
use crate::text::{
    lemma_in_order_prefix, lowercase, seq_has_in_order, spec_is_blank, spec_is_whitespace,
};

verus! {

// ---------------------------------------------------------------------------
// Remembering across runs
// ---------------------------------------------------------------------------

/// What is saved is what the next run starts from: the browsed folder, the
/// hidden-file setting and the resume setting come back, and so do the
/// track that was playing and how far into it playback was.
pub proof fn law_saved_state_is_restored(v: AppView)
    ensures
        initial_view(recorded(v).persistent).browser_path == v.browser_path,
        initial_view(recorded(v).persistent).show_hidden == v.show_hidden,
        initial_view(recorded(v).persistent).resume_mode == v.resume_mode,
        v.status.current_song is Some ==> initial_view(recorded(v).persistent).persistent.last_file
            == Some(v.status.current_song->0.file),
        v.status.elapsed is Some ==> initial_view(recorded(v).persistent).persistent.last_elapsed_secs
            == v.status.elapsed->0 / 1000,
{
}

/// A restart in resume mode with an empty queue queues again the track that
/// was playing when the state was last saved, and seeks to the whole second
/// it had reached, if past the first.
pub proof fn law_restart_resumes_where_playback_was(
    v: AppView,
    immersion: bool,
    q: Seq<SongView>,
    now: Instant,
)
    requires
        v.resume_mode,
        v.status.current_song is Some,
        v.status.elapsed is Some,
    ensures
        startup_step(initial_view(recorded(v).persistent), immersion, now).1 == Some(
            v.status.current_song->0.file,
        ),
        initial_view(recorded(v).persistent).persistent.last_elapsed_secs == v.status.elapsed->0
            / 1000,
        v.status.elapsed->0 >= 1000 ==> after_resume(initial_view(recorded(v).persistent), q, now).notice
            == Some(
            crate::keys::RESUMED_AT@ + crate::format::clock((v.status.elapsed->0 / 1000) as nat),
        ),
{
}

// ---------------------------------------------------------------------------
// The search filter
// ---------------------------------------------------------------------------

/// The search results are the positions of exactly the queued songs that
/// pass the filter, each once, in queue order.
pub proof fn law_search_results_are_the_matches(queue: Seq<SongView>, query: Seq<char>)
    requires
        queue.len() <= usize::MAX,
    ensures
        forall|j: int|
            0 <= j < matching_indices(queue, query).len() ==> {
                &&& #[trigger] matching_indices(queue, query)[j] < queue.len()
                &&& passes_filter(queue[matching_indices(queue, query)[j] as int], query)
            },
        forall|j1: int, j2: int|
            0 <= j1 < j2 < matching_indices(queue, query).len() ==> #[trigger] matching_indices(
                queue,
                query,
            )[j1] < #[trigger] matching_indices(queue, query)[j2],
        forall|i: int|
            0 <= i < queue.len() && passes_filter(#[trigger] queue[i], query)
                ==> matching_indices(queue, query).contains(i as usize),
{
    let all = Seq::new(queue.len(), |i: int| i as usize);
    let pred = |i: usize| passes_filter(queue[i as int], query);
    lemma_increasing_filter(all, pred);
    assert forall|j: int| 0 <= j < matching_indices(queue, query).len() implies {
        &&& #[trigger] matching_indices(queue, query)[j] < queue.len()
        &&& passes_filter(queue[matching_indices(queue, query)[j] as int], query)
    } by {
        let x = all.filter(pred)[j];
        all.lemma_filter_pred(pred, j);
        assert(all.filter(pred).contains(x));
        all.lemma_filter_contains_rev(pred, x);
    }
    assert forall|i: int| 0 <= i < queue.len() && passes_filter(#[trigger] queue[i], query) implies matching_indices(
        queue,
        query,
    ).contains(i as usize) by {
        assert(all[i] == i as usize);
        all.lemma_filter_contains(pred, i);
    }
}

/// Filtering a strictly increasing sequence keeps it strictly increasing.
proof fn lemma_increasing_filter(s: Seq<usize>, pred: spec_fn(usize) -> bool)
    requires
        forall|a: int, b: int| 0 <= a < b < s.len() ==> #[trigger] s[a] < #[trigger] s[b],
    ensures
        forall|a: int, b: int|
            0 <= a < b < s.filter(pred).len() ==> #[trigger] s.filter(pred)[a] < #[trigger] s.filter(
                pred,
            )[b],
    decreases s.len(),
{
    reveal(Seq::filter);
    if s.len() > 0 {
        let rest = s.drop_last();
        lemma_increasing_filter(rest, pred);
        if pred(s.last()) {
            assert forall|a: int| 0 <= a < rest.filter(pred).len() implies #[trigger] rest.filter(
                pred,
            )[a] < s.last() by {
                let x = rest.filter(pred)[a];
                assert(rest.filter(pred).contains(x));
                rest.lemma_filter_contains_rev(pred, x);
            }
        }
    }
}

/// With a blank query the playlist lists the whole queue in order.
pub proof fn law_blank_query_keeps_whole_queue(queue: Seq<SongView>, query: Seq<char>)
    requires
        spec_is_blank(query),
    ensures
        matching_indices(queue, query) == Seq::new(queue.len(), |i: int| i as usize),
{
    let all = Seq::new(queue.len(), |i: int| i as usize);
    let pred = |i: usize| passes_filter(queue[i as int], query);
    lemma_filter_all(all, pred);
}

proof fn lemma_filter_all<A>(s: Seq<A>, pred: spec_fn(A) -> bool)
    requires
        forall|i: int| 0 <= i < s.len() ==> pred(#[trigger] s[i]),
    ensures
        s.filter(pred) == s,
    decreases s.len(),
{
    reveal(Seq::filter);
    if s.len() > 0 {
        lemma_filter_all(s.drop_last(), pred);
        assert(s.drop_last().push(s.last()) =~= s);
    }
}

/// Filtering twice, by `p` and then by `q`, keeps the same items in the
/// same order as filtering by `q` and then by `p`.
proof fn lemma_filter_commutes<A>(s: Seq<A>, p: spec_fn(A) -> bool, q: spec_fn(A) -> bool)
    ensures
        s.filter(p).filter(q) == s.filter(q).filter(p),
    decreases s.len(),
{
    reveal(Seq::filter);
    if s.len() > 0 {
        let rest = s.drop_last();
        let x = s.last();
        lemma_filter_commutes(rest, p, q);
        if p(x) {
            rest.filter(p).lemma_filter_push(x, q);
        }
        if q(x) {
            rest.filter(q).lemma_filter_push(x, p);
        }
    }
}

/// Filtering by `q` after filtering by a weaker `p` is filtering by `q`.
proof fn lemma_filter_after_weaker<A>(s: Seq<A>, p: spec_fn(A) -> bool, q: spec_fn(A) -> bool)
    requires
        forall|x: A| #[trigger] q(x) ==> p(x),
    ensures
        s.filter(p).filter(q) == s.filter(q),
    decreases s.len(),
{
    reveal(Seq::filter);
    if s.len() > 0 {
        let rest = s.drop_last();
        let x = s.last();
        lemma_filter_after_weaker(rest, p, q);
        if p(x) {
            rest.filter(p).lemma_filter_push(x, q);
        }
    }
}

/// Typing more of a query never adds a search result: the results for the
/// longer query are those of the shorter one that still match, in the same
/// order.  This holds where lower-casing the longer query gives the
/// lower-cased shorter one followed by the lower-cased addition (lower-casing
/// is not letter by letter for every script: a final sigma depends on what
/// follows it), and where the shorter query is not blank (a blank query
/// lists everything).
pub proof fn law_longer_query_narrows_results(
    queue: Seq<SongView>,
    query: Seq<char>,
    more: Seq<char>,
)
    requires
        !spec_is_blank(query),
        lowercase(query + more) == lowercase(query) + lowercase(more),
    ensures
        matching_indices(queue, query + more) == matching_indices(queue, query).filter(
            |i: usize| passes_filter(queue[i as int], query + more),
        ),
{
    let longer = query + more;
    let p = |i: usize| passes_filter(queue[i as int], query);
    let q = |i: usize| passes_filter(queue[i as int], longer);
    let i0 = choose|i: int| 0 <= i < query.len() && !spec_is_whitespace(#[trigger] query[i]);
    assert(longer[i0] == query[i0]);
    assert(!spec_is_blank(longer));
    assert forall|i: usize| #[trigger] q(i) implies p(i) by {
        let s = queue[i as int];
        let lq = lowercase(query);
        let lm = lowercase(more);
        if seq_has_in_order(lowercase(s.title), lq + lm) {
            lemma_in_order_prefix(lowercase(s.title), lq, lm);
        }
        if seq_has_in_order(lowercase(s.artist), lq + lm) {
            lemma_in_order_prefix(lowercase(s.artist), lq, lm);
        }
        if seq_has_in_order(lowercase(s.album), lq + lm) {
            lemma_in_order_prefix(lowercase(s.album), lq, lm);
        }
        if seq_has_in_order(lowercase(s.file), lq + lm) {
            lemma_in_order_prefix(lowercase(s.file), lq, lm);
        }
    }
    lemma_filter_after_weaker(Seq::new(queue.len(), |i: int| i as usize), p, q);
}

/// After the results are recomputed the playlist selection is on a result,
/// or at the top when there is none.
pub proof fn law_refilter_keeps_selection_on_a_result(v: AppView)
    ensures
        refiltered(v).filtered_queue_indices.len() > 0 ==> refiltered(v).playlist_selected
            < refiltered(v).filtered_queue_indices.len(),
        refiltered(v).filtered_queue_indices.len() == 0 ==> refiltered(v).playlist_selected == 0,
{
}

// ---------------------------------------------------------------------------
// The search results always point into the queue
// ---------------------------------------------------------------------------

/// The lengths of the state's vectors fit in `usize`, as those of real
/// vectors do.
pub open spec fn lengths_fit(v: AppView) -> bool {
    &&& v.queue.len() <= usize::MAX
    &&& v.filtered_queue_indices.len() <= usize::MAX
    &&& v.browser_entries.len() <= usize::MAX
}

/// Every search result names a queued song.
pub open spec fn results_in_queue(v: AppView) -> bool {
    forall|j: int|
        0 <= j < v.filtered_queue_indices.len() ==> #[trigger] v.filtered_queue_indices[j]
            < v.queue.len()
}

proof fn lemma_refiltered_results_in_queue(v: AppView)
    requires
        v.queue.len() <= usize::MAX,
    ensures
        results_in_queue(refiltered(v)),
{
    law_search_results_are_the_matches(v.queue, v.search_query);
}

/// The selected playlist row names a queued song, so playing or removing it
/// addresses a song that exists.
pub proof fn law_selection_names_a_queued_song(v: AppView)
    requires
        results_in_queue(v),
    ensures
        selected_index(v) is Some ==> selected_index(v)->0 < v.queue.len(),
{
}

// ---------------------------------------------------------------------------
// The selections stay on rows
// ---------------------------------------------------------------------------

/// Without a query the search results are the whole queue.
pub open spec fn unfiltered_results_complete(v: AppView) -> bool {
    v.search_query.len() == 0 ==> v.filtered_queue_indices == Seq::new(
        v.queue.len(),
        |i: int| i as usize,
    )
}

/// Each pane's selection is on one of its rows, or at the top of an empty pane.
pub open spec fn selections_on_rows(v: AppView) -> bool {
    &&& v.playlist_selected < playlist_count(v) || v.playlist_selected == 0
    &&& v.browser_selected < v.browser_entries.len() || v.browser_selected == 0
}

/// The consistency the player keeps: real vector lengths, search results
/// inside the queue and complete without a query, selections on rows.
pub open spec fn consistent(v: AppView) -> bool {
    &&& lengths_fit(v)
    &&& results_in_queue(v)
    &&& unfiltered_results_complete(v)
    &&& selections_on_rows(v)
}

proof fn lemma_refiltered_consistent(v: AppView)
    requires
        v.queue.len() <= usize::MAX,
        v.browser_entries.len() <= usize::MAX,
        v.browser_selected < v.browser_entries.len() || v.browser_selected == 0,
    ensures
        consistent(refiltered(v)),
{
    lemma_refiltered_results_in_queue(v);
    let all = Seq::new(v.queue.len(), |i: int| i as usize);
    let pred = |i: usize| passes_filter(v.queue[i as int], v.search_query);
    all.lemma_filter_len(pred);
    if v.search_query.len() == 0 {
        law_blank_query_keeps_whole_queue(v.queue, v.search_query);
    }
}

/// The state at start-up is consistent.
pub proof fn law_start_is_consistent(p: crate::state::PersistentView)
    ensures
        consistent(initial_view(p)),
{
    assert(Seq::new(0, |i: int| i as usize) =~= Seq::<usize>::empty());
}

/// Moving a selection keeps the state consistent.
proof fn lemma_moves_consistent(v: AppView)
    requires
        consistent(v),
    ensures
        consistent(after_next(v)),
        consistent(after_prev(v)),
        consistent(after_page_down(v)),
        consistent(after_page_up(v)),
{
}

proof fn lemma_search_keys_consistent(v: AppView, k: KeyPress, now: Instant)
    requires
        consistent(v),
        v.search_mode,
    ensures
        consistent(crate::keys::search_step(v, k, now).0),
{
    match k.key {
        Key::Backspace => lemma_refiltered_consistent(
            AppView {
                search_query: if v.search_query.len() > 0 {
                    v.search_query.drop_last()
                } else {
                    v.search_query
                },
                ..v
            },
        ),
        Key::Char(c) => lemma_refiltered_consistent(
            AppView { search_query: v.search_query.push(c), ..v },
        ),
        _ => {},
    }
}

proof fn lemma_main_keys_consistent(v: AppView, k: KeyPress, now: Instant)
    requires
        consistent(v),
        !v.search_mode,
        !v.show_help,
    ensures
        consistent(crate::keys::main_step(v, k, now).0),
{
    match k.key {
        Key::Char('j') | Key::Down | Key::Char('k') | Key::Up | Key::PageDown | Key::PageUp => {
            lemma_moves_consistent(v);
        },
        Key::Esc => lemma_refiltered_consistent(AppView { search_query: Seq::empty(), ..v }),
        Key::Char('c') => lemma_refiltered_consistent(AppView { queue: Seq::empty(), ..v }),
        _ => {},
    }
}

/// Every key press keeps the state consistent.
pub proof fn law_keys_keep_consistency(v: AppView, k: KeyPress, now: Instant)
    requires
        consistent(v),
    ensures
        consistent(key_step(v, k, now).0),
{
    if v.search_mode {
        lemma_search_keys_consistent(v, k, now);
    } else if !v.show_help {
        lemma_main_keys_consistent(v, k, now);
    }
}

/// Every outcome of MPD's work handed back keeps the state consistent.
pub proof fn law_outcomes_keep_consistency(
    v: AppView,
    s: StatusView,
    q: Seq<SongView>,
    msg: Seq<char>,
    entries: Seq<DirEntryView>,
    added: bool,
    p: PendingAddView,
    immersion: bool,
    notice: crate::keys::StatusNotice,
    now: Instant,
)
    requires
        consistent(v),
        q.len() <= usize::MAX,
        entries.len() <= usize::MAX,
    ensures
        consistent(after_status_refresh(v, s, notice, now)),
        consistent(after_queue_refresh(v, q, msg, now)),
        consistent(after_directory_load(v, entries)),
        consistent(add_outcome(v, added, p, now).0),
        consistent(after_tick(v, s, q)),
        consistent(after_resume(v, q, now)),
        consistent(startup_step(v, immersion, now).0),
{
    lemma_refiltered_consistent(AppView { queue: q, ..v });
    lemma_refiltered_consistent(AppView { status: s, queue: q, ..v });
    if q.len() == v.queue.len() && v.search_query.len() == 0 {
        assert(Seq::new(q.len(), |i: int| i as usize) =~= Seq::new(
            v.queue.len(),
            |i: int| i as usize,
        ));
    }
}

// ---------------------------------------------------------------------------
// Moving the selection
// ---------------------------------------------------------------------------

/// Moving down one row and back up returns to the same row.
pub proof fn law_down_then_up_returns(v: AppView)
    requires
        lengths_fit(v),
        after_next(v) != v,
    ensures
        after_prev(after_next(v)) == v,
{
    assert(after_prev(after_next(v)) =~= v);
}

/// Paging down and back up returns to the same row, when the page fitted.
pub proof fn law_page_down_then_up_returns(v: AppView)
    requires
        lengths_fit(v),
        v.active_tab == ActiveTab::Playlist ==> v.playlist_selected + 10 < playlist_count(v),
        v.active_tab == ActiveTab::Browser ==> v.browser_selected + 10 < v.browser_entries.len(),
    ensures
        after_page_up(after_page_down(v)) == v,
{
    assert(after_page_up(after_page_down(v)) =~= v);
}

/// Paging down moves a selection on a row ten rows further, or onto the
/// last row when fewer than ten follow it, and never up; on the last row it
/// stays.
pub proof fn law_page_down_moves_a_page(v: AppView)
    requires
        lengths_fit(v),
    ensures
        v.active_tab == ActiveTab::Playlist && v.playlist_selected < playlist_count(v) ==> {
            let w = after_page_down(v);
            &&& v.playlist_selected <= w.playlist_selected < playlist_count(w)
            &&& w.playlist_selected == v.playlist_selected + 10 || w.playlist_selected
                == playlist_count(w) - 1
            &&& w.playlist_selected == playlist_count(w) - 1 ==> after_page_down(w) == w
        },
        v.active_tab == ActiveTab::Browser && v.browser_selected < v.browser_entries.len() ==> {
            let w = after_page_down(v);
            &&& v.browser_selected <= w.browser_selected < w.browser_entries.len()
            &&& w.browser_selected == v.browser_selected + 10 || w.browser_selected
                == w.browser_entries.len() - 1
            &&& w.browser_selected == w.browser_entries.len() - 1 ==> after_page_down(w) == w
        },
{
    let w = after_page_down(v);
    assert(after_page_down(w) =~= w <== (v.active_tab == ActiveTab::Playlist
        && w.playlist_selected == playlist_count(w) - 1 && v.playlist_selected < playlist_count(v)));
    assert(after_page_down(w) =~= w <== (v.active_tab == ActiveTab::Browser
        && w.browser_selected == w.browser_entries.len() - 1 && v.browser_selected
        < v.browser_entries.len()));
}

/// A selection on a row of the focused pane stays on a row of it.
pub proof fn law_moves_stay_on_rows(v: AppView)
    ensures
        v.active_tab == ActiveTab::Playlist && v.playlist_selected < playlist_count(v) ==> {
            &&& after_next(v).playlist_selected < playlist_count(after_next(v))
            &&& after_prev(v).playlist_selected < playlist_count(after_prev(v))
            &&& after_page_down(v).playlist_selected < playlist_count(after_page_down(v))
            &&& after_page_up(v).playlist_selected < playlist_count(after_page_up(v))
        },
        v.active_tab == ActiveTab::Browser && v.browser_selected < v.browser_entries.len() ==> {
            &&& after_next(v).browser_selected < after_next(v).browser_entries.len()
            &&& after_prev(v).browser_selected < after_prev(v).browser_entries.len()
            &&& after_page_down(v).browser_selected < after_page_down(v).browser_entries.len()
            &&& after_page_up(v).browser_selected < after_page_up(v).browser_entries.len()
        },
{
}

// ---------------------------------------------------------------------------
// The notification
// ---------------------------------------------------------------------------

/// A key press either raises a notification stamped with the instant of the
/// press, or leaves the notification, and when it was raised, as it was: a
/// notification shows for its full time unless a newer one replaces it.
pub proof fn law_keys_keep_or_replace_the_notice(v: AppView, k: KeyPress, now: Instant)
    ensures
        ({
            let w = key_step(v, k, now).0;
            ||| w.notice is Some && w.notice_at == Some(now)
            ||| w.notice == v.notice && w.notice_at == v.notice_at
        }),
{
}

/// Each outcome handed back either raises a notification stamped with the
/// instant it was handled at, or leaves the notification as it was; a
/// listed folder and a periodic refresh never touch it.
pub proof fn law_outcomes_keep_or_replace_the_notice(
    v: AppView,
    s: StatusView,
    q: Seq<SongView>,
    msg: Seq<char>,
    entries: Seq<DirEntryView>,
    added: bool,
    p: PendingAddView,
    immersion: bool,
    notice: crate::keys::StatusNotice,
    now: Instant,
)
    ensures
        ({
            let w = after_status_refresh(v, s, notice, now);
            ||| w.notice is Some && w.notice_at == Some(now)
            ||| w.notice == v.notice && w.notice_at == v.notice_at
        }),
        ({
            let w = add_outcome(v, added, p, now).0;
            ||| w.notice is Some && w.notice_at == Some(now)
            ||| w.notice == v.notice && w.notice_at == v.notice_at
        }),
        ({
            let w = startup_step(v, immersion, now).0;
            ||| w.notice is Some && w.notice_at == Some(now)
            ||| w.notice == v.notice && w.notice_at == v.notice_at
        }),
        after_queue_refresh(v, q, msg, now).notice_at == Some(now),
        after_resume(v, q, now).notice_at == Some(now),
        after_directory_load(v, entries).notice == v.notice,
        after_directory_load(v, entries).notice_at == v.notice_at,
        after_tick(v, s, q).notice == v.notice,
        after_tick(v, s, q).notice_at == v.notice_at,
{
}

// ---------------------------------------------------------------------------
// Key bindings
// ---------------------------------------------------------------------------

/// `q`, and Ctrl+C, quit from either pane outside search mode and help:
/// only `running` changes, and nothing is sent to MPD.
pub proof fn law_quit_keys_only_stop(v: AppView, k: KeyPress, now: Instant)
    requires
        !v.search_mode,
        !v.show_help,
        k.key == Key::Char('q') || (k.key == Key::Char('c') && k.ctrl),
    ensures
        key_step(v, k, now) == (AppView { running: false, ..v }, EffectView::Nothing),
{
}

/// Enter on the playlist plays the song its selected row shows: with a
/// search query, the queue position of the selected search result; without
/// one, the selected queue position.  With no song on the selected row it
/// does nothing.
pub proof fn law_enter_plays_the_selected_row(v: AppView, ctrl: bool, now: Instant)
    requires
        !v.search_mode,
        !v.show_help,
        v.active_tab == ActiveTab::Playlist,
    ensures
        ({
            let (w, e) = key_step(v, KeyPress { key: Key::Enter, ctrl }, now);
            &&& v.search_query.len() > 0 && v.playlist_selected < v.filtered_queue_indices.len()
                ==> e == EffectView::Run(
                CommandView::PlayIndex(v.filtered_queue_indices[v.playlist_selected as int]),
            )
            &&& v.search_query.len() == 0 && v.playlist_selected < v.queue.len() ==> e
                == EffectView::Run(CommandView::PlayIndex(v.playlist_selected))
            &&& e is Run ==> w.notice == Some(crate::keys::PLAYING_TRACK@)
            &&& (v.search_query.len() > 0 && v.playlist_selected >= v.filtered_queue_indices.len())
                || (v.search_query.len() == 0 && v.playlist_selected >= v.queue.len()) ==> w == v
                && e == EffectView::Nothing
        }),
{
}

/// Enter in search mode leaves it and plays the song of the selected search
/// result (the selected queue position when the query is empty).
pub proof fn law_enter_in_search_plays_the_selected_result(v: AppView, ctrl: bool, now: Instant)
    requires
        v.search_mode,
    ensures
        ({
            let (w, e) = key_step(v, KeyPress { key: Key::Enter, ctrl }, now);
            &&& !w.search_mode
            &&& v.search_query.len() > 0 && v.playlist_selected < v.filtered_queue_indices.len()
                ==> e == EffectView::Run(
                CommandView::PlayIndex(v.filtered_queue_indices[v.playlist_selected as int]),
            )
            &&& v.search_query.len() == 0 && v.playlist_selected < v.queue.len() ==> e
                == EffectView::Run(CommandView::PlayIndex(v.playlist_selected))
            &&& (v.search_query.len() > 0 && v.playlist_selected >= v.filtered_queue_indices.len())
                || (v.search_query.len() == 0 && v.playlist_selected >= v.queue.len()) ==> e
                == EffectView::Nothing
        }),
{
}

/// While the search results are those of the current query, the song Enter
/// plays on a filtered playlist is a queued song that passes the filter.
pub proof fn law_enter_plays_a_matching_song(v: AppView, ctrl: bool, now: Instant, i: usize)
    requires
        v.queue.len() <= usize::MAX,
        v.filtered_queue_indices == matching_indices(v.queue, v.search_query),
        !v.search_mode,
        !v.show_help,
        v.active_tab == ActiveTab::Playlist,
        v.search_query.len() > 0,
        key_step(v, KeyPress { key: Key::Enter, ctrl }, now).1 == EffectView::Run(
            CommandView::PlayIndex(i),
        ),
    ensures
        i < v.queue.len(),
        passes_filter(v.queue[i as int], v.search_query),
{
    law_search_results_are_the_matches(v.queue, v.search_query);
}

/// `d` and Delete on the playlist remove the song its selected row shows,
/// by its queue id, and refresh the queue; with no song there they do
/// nothing.
pub proof fn law_delete_removes_the_selected_row(v: AppView, k: KeyPress, now: Instant)
    requires
        !v.search_mode,
        !v.show_help,
        v.active_tab == ActiveTab::Playlist,
        k.key == Key::Char('d') || k.key == Key::Delete,
        results_in_queue(v),
    ensures
        ({
            let (w, e) = key_step(v, k, now);
            &&& w == v
            &&& v.search_query.len() > 0 && v.playlist_selected < v.filtered_queue_indices.len()
                ==> e == EffectView::RunThenRefreshQueue(
                CommandView::DeleteIndex(
                    v.queue[v.filtered_queue_indices[v.playlist_selected as int] as int].id,
                ),
                crate::keys::REMOVED@,
            )
            &&& v.search_query.len() == 0 && v.playlist_selected < v.queue.len() ==> e
                == EffectView::RunThenRefreshQueue(
                CommandView::DeleteIndex(v.queue[v.playlist_selected as int].id),
                crate::keys::REMOVED@,
            )
            &&& (v.search_query.len() > 0 && v.playlist_selected >= v.filtered_queue_indices.len())
                || (v.search_query.len() == 0 && v.playlist_selected >= v.queue.len()) ==> e
                == EffectView::Nothing
        }),
{
}

/// Queueing a browser entry (Enter on a file, or `a` on any entry) adds its
/// path, and asks to start playback exactly when the queue is empty or MPD
/// reports playback stopped.
pub proof fn law_queueing_starts_playback_when_idle(v: AppView, k: KeyPress, now: Instant)
    requires
        !v.search_mode,
        !v.show_help,
        v.active_tab == ActiveTab::Browser,
        v.browser_selected < v.browser_entries.len(),
        k.key == Key::Char('a') || (k.key == Key::Enter
            && !v.browser_entries[v.browser_selected as int].is_dir),
    ensures
        ({
            let entry = v.browser_entries[v.browser_selected as int];
            let (w, e) = key_step(v, k, now);
            &&& w == v
            &&& e is Add
            &&& e->Add_0.path == entry.path
            &&& e->Add_0.start_playback == (v.queue.len() == 0 || v.status.state
                == PlaybackState::Stopped)
            &&& e->Add_0.failed_notice == crate::keys::FAILED_PREFIX@ + entry.name
                + crate::keys::QUOTE@
        }),
{
}

/// After a successful add, playback is started (by a play/pause toggle)
/// exactly when the add asked for it, and the queue is refreshed with the
/// added notice either way; a failed add shows its failure notice.
pub proof fn law_added_entry_plays_when_asked(v: AppView, p: PendingAddView, now: Instant)
    ensures
        p.start_playback ==> add_outcome(v, true, p, now) == (v, EffectView::RunThenRefreshQueue(
            CommandView::TogglePause,
            p.added_notice,
        )),
        !p.start_playback ==> add_outcome(v, true, p, now) == (v, EffectView::RefreshQueue(
            p.added_notice,
        )),
        add_outcome(v, false, p, now).0.notice == Some(p.failed_notice),
        add_outcome(v, false, p, now).1 == EffectView::Nothing,
{
}

/// `i` shuffles and loops the browsed folder whenever one is open, whatever
/// pane has focus and whatever entry is selected; at the library root it
/// takes the selected browser entry, and otherwise the whole library.  It
/// changes nothing in the state.
pub proof fn law_immersion_targets_the_browsed_folder(v: AppView, ctrl: bool, now: Instant)
    requires
        !v.search_mode,
        !v.show_help,
    ensures
        ({
            let (w, e) = key_step(v, KeyPress { key: Key::Char('i'), ctrl }, now);
            &&& w == v
            &&& v.browser_path.len() > 0 ==> e == EffectView::RunThenRefreshQueue(
                CommandView::ImmersionMode(Some(v.browser_path)),
                crate::keys::IMMERSION_PREFIX@ + v.browser_path + crate::keys::QUOTE@,
            )
            &&& v.browser_path.len() == 0 && v.active_tab == ActiveTab::Browser
                && v.browser_selected < v.browser_entries.len() ==> e
                == EffectView::RunThenRefreshQueue(
                CommandView::ImmersionMode(Some(v.browser_entries[v.browser_selected as int].path)),
                crate::keys::IMMERSION_PREFIX@ + v.browser_entries[v.browser_selected as int].path
                    + crate::keys::QUOTE@,
            )
            &&& v.browser_path.len() == 0 && !(v.active_tab == ActiveTab::Browser
                && v.browser_selected < v.browser_entries.len()) ==> e
                == EffectView::RunThenRefreshQueue(
                CommandView::ImmersionMode(None),
                crate::keys::IMMERSION_PREFIX@ + crate::keys::FULL_LIBRARY@ + crate::keys::QUOTE@,
            )
        }),
{
}

/// The playback keys send their MPD command and change nothing else but the
/// notification: space toggles pause, `n`/`p` skip, `+`/`=` and `-` change
/// the volume by 5, Right/Left seek by 5 seconds, `r`/`e`/`l` toggle random,
/// repeat and single, `I` shuffles the whole library.
pub proof fn law_playback_keys_send_their_commands(v: AppView, ctrl: bool, now: Instant)
    requires
        !v.search_mode,
        !v.show_help,
    ensures
        key_step(v, KeyPress { key: Key::Char(' '), ctrl }, now) == (v, EffectView::RunThenRefreshStatus(
            CommandView::TogglePause,
            crate::keys::StatusNotice::PlayPause,
        )),
        key_step(v, KeyPress { key: Key::Char('n'), ctrl }, now).1 == EffectView::Run(CommandView::Next),
        key_step(v, KeyPress { key: Key::Char('p'), ctrl }, now).1 == EffectView::Run(CommandView::Prev),
        key_step(v, KeyPress { key: Key::Char('+'), ctrl }, now) == (v, EffectView::RunThenRefreshStatus(
            CommandView::ChangeVolume(5),
            crate::keys::StatusNotice::Volume,
        )),
        key_step(v, KeyPress { key: Key::Char('='), ctrl }, now) == (v, EffectView::RunThenRefreshStatus(
            CommandView::ChangeVolume(5),
            crate::keys::StatusNotice::Volume,
        )),
        key_step(v, KeyPress { key: Key::Char('-'), ctrl }, now) == (v, EffectView::RunThenRefreshStatus(
            CommandView::ChangeVolume(-5i8),
            crate::keys::StatusNotice::Volume,
        )),
        key_step(v, KeyPress { key: Key::Right, ctrl }, now).1 == EffectView::Run(
            CommandView::SeekRelative(5),
        ),
        key_step(v, KeyPress { key: Key::Left, ctrl }, now).1 == EffectView::Run(
            CommandView::SeekRelative(-5i64),
        ),
        key_step(v, KeyPress { key: Key::Char('r'), ctrl }, now) == (v, EffectView::RunThenRefreshStatus(
            CommandView::ToggleRandom,
            crate::keys::StatusNotice::Random,
        )),
        key_step(v, KeyPress { key: Key::Char('e'), ctrl }, now) == (v, EffectView::RunThenRefreshStatus(
            CommandView::ToggleRepeat,
            crate::keys::StatusNotice::Repeat,
        )),
        key_step(v, KeyPress { key: Key::Char('l'), ctrl }, now) == (v, EffectView::RunThenRefreshStatus(
            CommandView::ToggleSingle,
            crate::keys::StatusNotice::Single,
        )),
        key_step(v, KeyPress { key: Key::Char('I'), ctrl }, now) == (v, EffectView::RunThenRefreshQueue(
            CommandView::ImmersionMode(None),
            crate::keys::GLOBAL_IMMERSION@,
        )),
        ({
            let w = key_step(v, KeyPress { key: Key::Char('n'), ctrl }, now).0;
            w == (AppView { notice: w.notice, notice_at: w.notice_at, ..v })
        }),
        ({
            let w = key_step(v, KeyPress { key: Key::Right, ctrl }, now).0;
            w == (AppView { notice: w.notice, notice_at: w.notice_at, ..v })
        }),
{
    let w = key_step(v, KeyPress { key: Key::Char('n'), ctrl }, now).0;
    assert(w =~= (AppView { notice: w.notice, notice_at: w.notice_at, ..v }));
    let w2 = key_step(v, KeyPress { key: Key::Right, ctrl }, now).0;
    assert(w2 =~= (AppView { notice: w2.notice, notice_at: w2.notice_at, ..v }));
}

/// `c` on the playlist (without Control) empties the queue, locally and in
/// MPD, and its search results; on the browser it does nothing.
pub proof fn law_c_clears_the_queue_on_the_playlist(v: AppView, now: Instant)
    requires
        !v.search_mode,
        !v.show_help,
    ensures
        v.active_tab == ActiveTab::Playlist ==> {
            let (w, e) = key_step(v, KeyPress { key: Key::Char('c'), ctrl: false }, now);
            &&& e == EffectView::Run(CommandView::ClearQueue)
            &&& w.queue.len() == 0
            &&& w.filtered_queue_indices.len() == 0
            &&& w.playlist_selected == 0
            &&& w.running == v.running
        },
        v.active_tab == ActiveTab::Browser ==> key_step(
            v,
            KeyPress { key: Key::Char('c'), ctrl: false },
            now,
        ) == (v, EffectView::Nothing),
{
    let w = AppView { queue: Seq::<SongView>::empty(), ..v };
    assert(Seq::new(w.queue.len(), |i: int| i as usize) =~= Seq::<usize>::empty());
    reveal(Seq::filter);
    assert(matching_indices(w.queue, w.search_query).len() == 0);
}

/// Tab moves the focus to the other pane and changes nothing else.
pub proof fn law_tab_switches_pane(v: AppView, ctrl: bool, now: Instant)
    requires
        !v.search_mode,
        !v.show_help,
    ensures
        key_step(v, KeyPress { key: Key::Tab, ctrl }, now).1 == EffectView::Nothing,
        key_step(v, KeyPress { key: Key::Tab, ctrl }, now).0.active_tab != v.active_tab,
        key_step(v, KeyPress { key: Key::Tab, ctrl }, now).0 == (AppView {
            active_tab: key_step(v, KeyPress { key: Key::Tab, ctrl }, now).0.active_tab,
            ..v
        }),
{
    let w = key_step(v, KeyPress { key: Key::Tab, ctrl }, now).0;
    assert(w =~= (AppView { active_tab: w.active_tab, ..v }));
}

// ---------------------------------------------------------------------------
// Toggles
// ---------------------------------------------------------------------------

/// Tab twice focuses the same pane again and changes nothing else.
pub proof fn law_tab_twice_is_identity(v: AppView, t1: Instant, t2: Instant)
    requires
        !v.search_mode,
        !v.show_help,
    ensures
        key_step(key_step(v, KeyPress { key: Key::Tab, ctrl: false }, t1).0, KeyPress { key: Key::Tab, ctrl: false }, t2).0
            == v,
{
    assert(key_step(key_step(v, KeyPress { key: Key::Tab, ctrl: false }, t1).0, KeyPress { key: Key::Tab, ctrl: false }, t2).0
        =~= v);
}

/// `?` opens the help overlay and `?` or Esc closes it, leaving the state as
/// it was.
pub proof fn law_help_opens_and_closes(v: AppView, ctrl: bool, close: Key, t1: Instant, t2: Instant)
    requires
        !v.search_mode,
        !v.show_help,
        close == Key::Esc || close == Key::Char('?'),
    ensures
        key_step(v, KeyPress { key: Key::Char('?'), ctrl }, t1).0.show_help,
        key_step(key_step(v, KeyPress { key: Key::Char('?'), ctrl }, t1).0, KeyPress { key: close, ctrl }, t2).0
            == v,
{
    assert(key_step(key_step(v, KeyPress { key: Key::Char('?'), ctrl }, t1).0, KeyPress { key: close, ctrl }, t2).0
        =~= v);
}

/// `.` twice shows hidden names exactly when they were shown before.
pub proof fn law_hidden_toggle_twice(v: AppView, ctrl: bool, t1: Instant, t2: Instant)
    requires
        !v.search_mode,
        !v.show_help,
    ensures
        key_step(key_step(v, KeyPress { key: Key::Char('.'), ctrl }, t1).0, KeyPress { key: Key::Char('.'), ctrl }, t2).0.show_hidden
            == v.show_hidden,
{
}

/// `m` twice leaves resume mode as it was, and what is remembered follows
/// the setting each time.
pub proof fn law_resume_toggle_twice(v: AppView, ctrl: bool, t1: Instant, t2: Instant)
    requires
        !v.search_mode,
        !v.show_help,
    ensures
        key_step(key_step(v, KeyPress { key: Key::Char('m'), ctrl }, t1).0, KeyPress { key: Key::Char('m'), ctrl }, t2).0.resume_mode
            == v.resume_mode,
        key_step(v, KeyPress { key: Key::Char('m'), ctrl }, t1).0.persistent.resume_mode
            == !v.resume_mode,
{
}

/// In search mode, typing a character and erasing it gives back the query
/// and its results.
pub proof fn law_type_then_erase(v: AppView, c: char, ctrl: bool, t1: Instant, t2: Instant)
    requires
        v.search_mode,
    ensures
        key_step(key_step(v, KeyPress { key: Key::Char(c), ctrl }, t1).0, KeyPress { key: Key::Backspace, ctrl }, t2).0.search_query
            == v.search_query,
        key_step(key_step(v, KeyPress { key: Key::Char(c), ctrl }, t1).0, KeyPress { key: Key::Backspace, ctrl }, t2).0.filtered_queue_indices
            == refiltered(v).filtered_queue_indices,
{
    assert(v.search_query.push(c).drop_last() =~= v.search_query);
}

// ---------------------------------------------------------------------------
// The library browser
// ---------------------------------------------------------------------------

/// Directories are listed before files.
pub proof fn law_directories_before_files(out: Seq<DirEntryView>, input: Seq<DirEntryView>)
    requires
        stably_sorted(out, input),
    ensures
        forall|i: int, j: int| 0 <= i < j < out.len() && #[trigger] out[j].is_dir ==> #[trigger] out[i].is_dir,
{
    assert forall|i: int, j: int| 0 <= i < j < out.len() && #[trigger] out[j].is_dir implies #[trigger] out[i].is_dir by {
        assert(!crate::browser::sorts_before(out[j], out[i]));
        assert(rank(out[j]) == 0);
    }
}

/// Names are compared as `String`'s order compares them: `a` is below `b`
/// exactly when `a` is a proper prefix of `b`, or at the first place where
/// they differ `a` has the smaller char.
pub proof fn law_name_order_is_lexicographic(a: Seq<char>, b: Seq<char>)
    ensures
        chars_lt(a, b) <==> {
            ||| a.len() < b.len() && a == b.take(a.len() as int)
            ||| exists|i: int|
                0 <= i < a.len() && i < b.len() && #[trigger] a.take(i) == b.take(i) && (a[i] as int)
                    < (b[i] as int)
        },
    decreases a.len(),
{
    let prefix = a.len() < b.len() && a == b.take(a.len() as int);
    let differs = exists|i: int|
        0 <= i < a.len() && i < b.len() && #[trigger] a.take(i) == b.take(i) && (a[i] as int)
            < (b[i] as int);
    if a.len() == 0 {
        if b.len() > 0 {
            assert(a =~= b.take(0));
        }
    } else if b.len() == 0 {
    } else if a[0] != b[0] {
        if (a[0] as int) < (b[0] as int) {
            assert(a.take(0) =~= b.take(0));
        }
        if prefix {
            assert(a[0] == b.take(a.len() as int)[0]);
        }
        if differs {
            let i = choose|i: int|
                0 <= i < a.len() && i < b.len() && #[trigger] a.take(i) == b.take(i) && (a[i] as int)
                    < (b[i] as int);
            if i > 0 {
                assert(a.take(i)[0] == b.take(i)[0]);
            }
        }
    } else {
        let a2 = a.drop_first();
        let b2 = b.drop_first();
        law_name_order_is_lexicographic(a2, b2);
        let prefix2 = a2.len() < b2.len() && a2 == b2.take(a2.len() as int);
        let differs2 = exists|i: int|
            0 <= i < a2.len() && i < b2.len() && #[trigger] a2.take(i) == b2.take(i) && (a2[i] as int)
                < (b2[i] as int);
        if prefix {
            assert(a2 =~= b2.take(a2.len() as int)) by {
                assert forall|k: int| 0 <= k < a2.len() implies #[trigger] a2[k] == b2.take(a2.len() as int)[k] by {
                    assert(a[k + 1] == b.take(a.len() as int)[k + 1]);
                }
            }
        }
        if prefix2 {
            assert(a =~= b.take(a.len() as int)) by {
                assert forall|k: int| 0 <= k < a.len() implies #[trigger] a[k] == b.take(a.len() as int)[k] by {
                    if k > 0 {
                        assert(a2[k - 1] == b2.take(a2.len() as int)[k - 1]);
                    }
                }
            }
        }
        if differs {
            let i = choose|i: int|
                0 <= i < a.len() && i < b.len() && #[trigger] a.take(i) == b.take(i) && (a[i] as int)
                    < (b[i] as int);
            assert(i > 0);
            assert(a2.take(i - 1) =~= b2.take(i - 1)) by {
                assert forall|k: int| 0 <= k < i - 1 implies #[trigger] a2.take(i - 1)[k] == b2.take(i - 1)[k] by {
                    assert(a.take(i)[k + 1] == b.take(i)[k + 1]);
                }
            }
            assert(a2[i - 1] == a[i] && b2[i - 1] == b[i]);
        }
        if differs2 {
            let j = choose|j: int|
                0 <= j < a2.len() && j < b2.len() && #[trigger] a2.take(j) == b2.take(j) && (a2[j] as int)
                    < (b2[j] as int);
            assert(a.take(j + 1) =~= b.take(j + 1)) by {
                assert forall|k: int| 0 <= k < j + 1 implies #[trigger] a.take(j + 1)[k] == b.take(j + 1)[k] by {
                    if k > 0 {
                        assert(a2.take(j)[k - 1] == b2.take(j)[k - 1]);
                    }
                }
            }
            assert(a[j + 1] == a2[j] && b[j + 1] == b2[j]);
        }
    }
}

/// A name sorts strictly before every longer name it begins: `a` is below
/// `a + m` for any non-empty `m`, and never above it.
pub proof fn law_prefix_name_sorts_first(a: Seq<char>, m: Seq<char>)
    requires
        m.len() > 0,
    ensures
        chars_lt(a, a + m),
        !chars_lt(a + m, a),
{
    let b = a + m;
    law_name_order_is_lexicographic(a, b);
    assert(a =~= b.take(a.len() as int));
    law_name_order_is_lexicographic(b, a);
    if exists|i: int|
        0 <= i < b.len() && i < a.len() && #[trigger] b.take(i) == a.take(i) && (b[i] as int)
            < (a[i] as int) {
        let i = choose|i: int|
            0 <= i < b.len() && i < a.len() && #[trigger] b.take(i) == a.take(i) && (b[i] as int)
                < (a[i] as int);
        assert(b[i] == a[i]);
    }
}

/// Of two listed entries of the same kind, the one whose case-folded name
/// is a proper prefix of the other's comes first.
pub proof fn law_prefix_entry_listed_first(
    out: Seq<DirEntryView>,
    input: Seq<DirEntryView>,
    i: int,
    j: int,
    m: Seq<char>,
)
    requires
        stably_sorted(out, input),
        0 <= i < out.len(),
        0 <= j < out.len(),
        out[i].is_dir == out[j].is_dir,
        m.len() > 0,
        lowercase(out[j].name) == lowercase(out[i].name) + m,
    ensures
        i < j,
{
    law_prefix_name_sorts_first(lowercase(out[i].name), m);
    assert(crate::browser::sorts_before(out[i], out[j]));
    if j < i {
        assert(!crate::browser::sorts_before(out[i], out[j]));
    }
    if i == j {
        assert((lowercase(out[i].name) + m).len() > lowercase(out[i].name).len());
    }
}

/// Sorting loses no entry and invents none.
pub proof fn law_sorting_keeps_entries(out: Seq<DirEntryView>, input: Seq<DirEntryView>)
    requires
        stably_sorted(out, input),
    ensures
        forall|e: DirEntryView| out.contains(e) <==> input.contains(e),
{
    assert forall|e: DirEntryView| out.contains(e) <==> input.contains(e) by {
        let k = sort_key(e);
        let pred = |x: DirEntryView| sort_key(x) == k;
        assert(key_class(out, k) == key_class(input, k));
        if out.contains(e) {
            let i = choose|i: int| 0 <= i < out.len() && out[i] == e;
            out.lemma_filter_contains(pred, i);
            input.lemma_filter_contains_rev(pred, e);
        }
        if input.contains(e) {
            let i = choose|i: int| 0 <= i < input.len() && input[i] == e;
            input.lemma_filter_contains(pred, i);
            out.lemma_filter_contains_rev(pred, e);
        }
    }
}

proof fn lemma_chars_lt_total(a: Seq<char>, b: Seq<char>)
    requires
        a != b,
    ensures
        chars_lt(a, b) || chars_lt(b, a),
    decreases a.len(),
{
    if a.len() == 0 || b.len() == 0 {
        if a.len() == 0 && b.len() == 0 {
            assert(a =~= b);
        }
    } else if a[0] == b[0] {
        if a.drop_first() =~= b.drop_first() {
            assert forall|i: int| 0 <= i < a.len() implies a[i] == b[i] by {
                if i > 0 {
                    assert(a[i] == a.drop_first()[i - 1]);
                    assert(b[i] == b.drop_first()[i - 1]);
                }
            }
            assert(a =~= b);
        } else {
            lemma_chars_lt_total(a.drop_first(), b.drop_first());
        }
    } else {
        assert((a[0] as int) != (b[0] as int));
    }
}

/// Some entry of `s` has sort key `k` exactly when its class for `k` is not empty.
proof fn lemma_class_nonempty(s: Seq<DirEntryView>, i: int)
    requires
        0 <= i < s.len(),
    ensures
        key_class(s, sort_key(s[i])).len() > 0,
{
    let pred = |e: DirEntryView| sort_key(e) == sort_key(s[i]);
    s.lemma_filter_contains(pred, i);
}

/// Sorting stably has one result: two stably sorted versions of the same
/// entries are equal.
pub proof fn law_stable_sort_is_unique(a: Seq<DirEntryView>, b: Seq<DirEntryView>, input: Seq<DirEntryView>)
    requires
        stably_sorted(a, input),
        stably_sorted(b, input),
    ensures
        a == b,
    decreases a.len() + b.len(),
{
    assert forall|k: (u8, Seq<char>)| #[trigger] key_class(a, k) == key_class(b, k) by {
        assert(key_class(a, k) == key_class(input, k));
        assert(key_class(b, k) == key_class(input, k));
    }
    lemma_same_classes_sorted_equal(a, b);
}

proof fn lemma_same_classes_sorted_equal(a: Seq<DirEntryView>, b: Seq<DirEntryView>)
    requires
        crate::browser::is_sorted(a),
        crate::browser::is_sorted(b),
        forall|k: (u8, Seq<char>)| #[trigger] key_class(a, k) == key_class(b, k),
    ensures
        a == b,
    decreases a.len() + b.len(),
{
    reveal(Seq::filter);
    if a.len() == 0 {
        if b.len() > 0 {
            lemma_class_nonempty(b, 0);
            assert(key_class(a, sort_key(b[0])) == key_class(b, sort_key(b[0])));
            assert(a =~= Seq::<DirEntryView>::empty());
        }
        assert(a =~= b);
    } else if b.len() == 0 {
        lemma_class_nonempty(a, 0);
        assert(key_class(a, sort_key(a[0])) == key_class(b, sort_key(b[0])));
        assert(false);
    } else {
        let ka = sort_key(a.last());
        let kb = sort_key(b.last());
        // The last keys agree: each is present in the other sequence, and a
        // sorted sequence ends with its greatest key.
        lemma_class_nonempty(a, a.len() - 1);
        lemma_class_nonempty(b, b.len() - 1);
        if ka != kb {
            let ca = key_class(b, ka);
            assert(ca == key_class(a, ka));
            let pa = |e: DirEntryView| sort_key(e) == ka;
            b.lemma_filter_pred(pa, 0);
            assert(b.filter(pa).contains(ca[0]));
            b.lemma_filter_contains_rev(pa, ca[0]);
            let j = choose|j: int| 0 <= j < b.len() && b[j] == ca[0];
            let cb = key_class(a, kb);
            assert(cb == key_class(b, kb));
            let pb = |e: DirEntryView| sort_key(e) == kb;
            a.lemma_filter_pred(pb, 0);
            assert(a.filter(pb).contains(cb[0]));
            a.lemma_filter_contains_rev(pb, cb[0]);
            let i = choose|i: int| 0 <= i < a.len() && a[i] == cb[0];
            // a[i] has key kb and comes no later than a's last; likewise b[j].
            if i < a.len() - 1 {
                assert(!crate::browser::sorts_before(a.last(), a[i]));
            }
            if j < b.len() - 1 {
                assert(!crate::browser::sorts_before(b.last(), b[j]));
            }
            if ka.0 != kb.0 {
            } else {
                lemma_chars_lt_total(ka.1, kb.1);
            }
            assert(false);
        }
        let k = ka;
        let pk = |e: DirEntryView| sort_key(e) == k;
        assert(key_class(a, k) == a.drop_last().filter(pk).push(a.last()));
        assert(key_class(b, k) == b.drop_last().filter(pk).push(b.last()));
        assert(a.last() == key_class(a, k).last());
        assert(b.last() == key_class(b, k).last());
        assert forall|k2: (u8, Seq<char>)| #[trigger] key_class(a.drop_last(), k2) == key_class(
            b.drop_last(),
            k2,
        ) by {
            let p2 = |e: DirEntryView| sort_key(e) == k2;
            assert(key_class(a, k2) == key_class(b, k2));
            if k2 == k {
                assert(key_class(a.drop_last(), k2) =~= key_class(a, k2).drop_last());
                assert(key_class(b.drop_last(), k2) =~= key_class(b, k2).drop_last());
            } else {
                assert(key_class(a.drop_last(), k2) == key_class(a, k2));
                assert(key_class(b.drop_last(), k2) == key_class(b, k2));
            }
        }
        lemma_same_classes_sorted_equal(a.drop_last(), b.drop_last());
        assert(a =~= a.drop_last().push(a.last()));
        assert(b =~= b.drop_last().push(b.last()));
    }
}

/// The entries of a listing with hidden names left out are the entries with
/// them shown, those with hidden names removed.
proof fn lemma_hidden_entries_filtered(dir: Seq<char>, listing: Seq<(Seq<char>, Seq<char>)>)
    ensures
        listed_entries(dir, listing, false) == listed_entries(dir, listing, true).filter(
            |e: DirEntryView| !is_hidden(e.name),
        ),
    decreases listing.len(),
{
    let nh = |e: DirEntryView| !is_hidden(e.name);
    reveal(Seq::filter);
    if listing.len() > 0 {
        let rest = listing.drop_last();
        lemma_hidden_entries_filtered(dir, rest);
        let shown = listed_entries(dir, rest, true);
        match listed_entry(dir, listing.last(), true) {
            Some(e) => {
                assert(listed_entries(dir, listing, true) =~= shown.push(e));
                shown.lemma_filter_push(e, nh);
                if nh(e) {
                    assert(listed_entry(dir, listing.last(), false) == Some(e));
                    assert(listed_entries(dir, listing, false) =~= listed_entries(dir, rest, false).push(e));
                } else {
                    assert(listed_entry(dir, listing.last(), false) is None);
                }
            },
            None => {
                assert(listed_entry(dir, listing.last(), false) is None);
            },
        }
    }
}

/// Filtering a sorted sequence of entries keeps it sorted.
proof fn lemma_filter_keeps_sorted(s: Seq<DirEntryView>, p: spec_fn(DirEntryView) -> bool)
    requires
        crate::browser::is_sorted(s),
    ensures
        crate::browser::is_sorted(s.filter(p)),
    decreases s.len(),
{
    reveal(Seq::filter);
    if s.len() > 0 {
        let rest = s.drop_last();
        let x = s.last();
        assert forall|i: int, j: int| 0 <= i < j < rest.len() implies !crate::browser::sorts_before(
            #[trigger] rest[j],
            #[trigger] rest[i],
        ) by {
            assert(rest[i] == s[i] && rest[j] == s[j]);
        }
        lemma_filter_keeps_sorted(rest, p);
        if p(x) {
            let f = rest.filter(p);
            let g = f.push(x);
            assert forall|i: int, j: int| 0 <= i < j < g.len() implies !crate::browser::sorts_before(
                #[trigger] g[j],
                #[trigger] g[i],
            ) by {
                if j == f.len() {
                    let y = f[i];
                    assert(f.contains(y));
                    rest.lemma_filter_contains_rev(p, y);
                    let k = choose|k: int| 0 <= k < rest.len() && rest[k] == y;
                    assert(s[k] == y && s[s.len() - 1] == x);
                } else {
                    assert(g[i] == f[i] && g[j] == f[j]);
                }
            }
        }
    }
}

/// Hiding names filters the listing and changes nothing else: the sorted
/// entries without hidden names are the sorted entries with them, those
/// with hidden names removed, in the same order.
pub proof fn law_hidden_listing_is_shown_listing_filtered(
    dir: Seq<char>,
    listing: Seq<(Seq<char>, Seq<char>)>,
    shown: Seq<DirEntryView>,
    unhidden: Seq<DirEntryView>,
)
    requires
        stably_sorted(shown, listed_entries(dir, listing, true)),
        stably_sorted(unhidden, listed_entries(dir, listing, false)),
    ensures
        unhidden == shown.filter(|e: DirEntryView| !is_hidden(e.name)),
{
    let nh = |e: DirEntryView| !is_hidden(e.name);
    let all = listed_entries(dir, listing, true);
    let some = listed_entries(dir, listing, false);
    let f = shown.filter(nh);
    lemma_hidden_entries_filtered(dir, listing);
    lemma_filter_keeps_sorted(shown, nh);
    assert forall|k: (u8, Seq<char>)| #[trigger] key_class(f, k) == key_class(some, k) by {
        let pk = |e: DirEntryView| sort_key(e) == k;
        lemma_filter_commutes(shown, nh, pk);
        lemma_filter_commutes(all, nh, pk);
        assert(key_class(shown, k) == key_class(all, k));
    }
    law_stable_sort_is_unique(unhidden, f, some);
}

/// Unless hidden names are shown, no entry of a listing has one.
pub proof fn law_hidden_names_left_out(
    dir: Seq<char>,
    listing: Seq<(Seq<char>, Seq<char>)>,
    e: DirEntryView,
)
    requires
        listed_entries(dir, listing, false).contains(e),
    ensures
        !is_hidden(e.name),
{
    let f = |line: (Seq<char>, Seq<char>)| listed_entry(dir, line, false);
    listing.lemma_filter_map_contains(f, e);
}

} // verus!
