use vstd::prelude::*;

use crate::newsroomcore::datasources::{DataSourceView, DataSources};
use crate::newsroomcore::newsarticle::{ArticleView, NewsArticle};

verus! {

/// The application state. Exactly one variant is live at a time; the state
/// machine replaces it wholesale on each accepted transition.
#[derive(Debug)]
pub enum NewsroomState {
    Homescreen,
    FetchMedia(Vec<DataSources>),
    DisplayMedia(Vec<NewsArticle>),
    ManageSettings(Option<Vec<NewsArticle>>),
}

/// A state-transition event: a user or system intent, consumed exactly once
/// by the state machine.
#[derive(Debug)]
pub enum NewsroomTransitions {
    Loaded,
    ToSettings,
    ExitSettings,
    FetchMedia(Vec<DataSources>),
    ReturnMedia(Vec<NewsArticle>),
    Up,
    Down,
    Left,
    Right,
    Quit,
}

/// The content of a `NewsroomState`, with payloads as sequences of views.
pub ghost enum StateView {
    Homescreen,
    FetchMedia(Seq<DataSourceView>),
    DisplayMedia(Seq<ArticleView>),
    ManageSettings(Option<Seq<ArticleView>>),
}

/// The content of a `NewsroomTransitions` value.
pub ghost enum TransitionView {
    Loaded,
    ToSettings,
    ExitSettings,
    FetchMedia(Seq<DataSourceView>),
    ReturnMedia(Seq<ArticleView>),
    Up,
    Down,
    Left,
    Right,
    Quit,
}

impl View for NewsroomState {
    type V = StateView;

    open spec fn view(&self) -> StateView {
        match self {
            NewsroomState::Homescreen => StateView::Homescreen,
            NewsroomState::FetchMedia(sources) => StateView::FetchMedia(sources.deep_view()),
            NewsroomState::DisplayMedia(articles) => StateView::DisplayMedia(articles.deep_view()),
            NewsroomState::ManageSettings(saved) => StateView::ManageSettings(saved.deep_view()),
        }
    }
}

impl View for NewsroomTransitions {
    type V = TransitionView;

    open spec fn view(&self) -> TransitionView {
        match self {
            NewsroomTransitions::Loaded => TransitionView::Loaded,
            NewsroomTransitions::ToSettings => TransitionView::ToSettings,
            NewsroomTransitions::ExitSettings => TransitionView::ExitSettings,
            NewsroomTransitions::FetchMedia(sources) => TransitionView::FetchMedia(
                sources.deep_view(),
            ),
            NewsroomTransitions::ReturnMedia(articles) => TransitionView::ReturnMedia(
                articles.deep_view(),
            ),
            NewsroomTransitions::Up => TransitionView::Up,
            NewsroomTransitions::Down => TransitionView::Down,
            NewsroomTransitions::Left => TransitionView::Left,
            NewsroomTransitions::Right => TransitionView::Right,
            NewsroomTransitions::Quit => TransitionView::Quit,
        }
    }
}

/// Everything the state machine owns, as one mathematical value: the live
/// state, the running flag, the active tab, and the selection cursor.
pub ghost struct AppView {
    pub state: StateView,
    pub running: bool,
    pub tab: int,
    pub row: Option<int>,
}

/// Cursor motion for a Down press over a list of `len` articles: meaningful
/// only when the list is non-empty; selects the first article when nothing
/// is selected, otherwise advances and wraps to the first.
pub open spec fn down_row(row: Option<int>, len: int) -> Option<int> {
    if len <= 0 {
        row
    } else {
        match row {
            None => Some(0int),
            Some(i) => if i + 1 >= len {
                Some(0int)
            } else {
                Some(i + 1)
            },
        }
    }
}

/// Cursor motion for an Up press: selects the first article when nothing is
/// selected, otherwise retreats and wraps to the last.
pub open spec fn up_row(row: Option<int>, len: int) -> Option<int> {
    if len <= 0 {
        row
    } else {
        match row {
            None => Some(0int),
            Some(i) => if i == 0 {
                Some(len - 1)
            } else {
                Some(i - 1)
            },
        }
    }
}

/// The transition table: the next machine value for every state and every
/// transition. Total by construction; pairs outside the table are explicit
/// no-ops.
pub open spec fn step(v: AppView, t: TransitionView) -> AppView {
    match (v.state, t) {
        (StateView::Homescreen, TransitionView::FetchMedia(sources)) => (AppView {
            state: StateView::FetchMedia(sources),
            ..v
        }),
        (StateView::FetchMedia(_), TransitionView::FetchMedia(_)) => v,
        (StateView::FetchMedia(_), TransitionView::ReturnMedia(articles)) => (AppView {
            state: StateView::DisplayMedia(articles),
            row: None,
            ..v
        }),
        (StateView::DisplayMedia(_), TransitionView::ReturnMedia(_)) => v,
        (StateView::DisplayMedia(articles), TransitionView::ToSettings) => (AppView {
            state: StateView::ManageSettings(Some(articles)),
            tab: 1,
            ..v
        }),
        (_, TransitionView::ToSettings) => (AppView {
            state: StateView::ManageSettings(None),
            tab: 1,
            ..v
        }),
        (StateView::ManageSettings(Some(articles)), TransitionView::ExitSettings) => (AppView {
            state: StateView::DisplayMedia(articles),
            tab: 0,
            ..v
        }),
        (StateView::ManageSettings(None), TransitionView::ExitSettings) => (AppView {
            state: StateView::Homescreen,
            tab: 0,
            ..v
        }),
        (StateView::DisplayMedia(articles), TransitionView::Up) => (AppView {
            row: up_row(v.row, articles.len() as int),
            ..v
        }),
        (StateView::DisplayMedia(articles), TransitionView::Down) => (AppView {
            row: down_row(v.row, articles.len() as int),
            ..v
        }),
        (_, TransitionView::Quit) => (AppView { running: false, ..v }),
        _ => v,
    }
}

/// The side effect a transition asks for: the sources to hand to the
/// aggregator when a fetch starts, and nothing otherwise.
pub open spec fn step_effect(v: AppView, t: TransitionView) -> Option<Seq<DataSourceView>> {
    match (v.state, t) {
        (StateView::Homescreen, TransitionView::FetchMedia(sources)) => Some(sources),
        _ => None,
    }
}

/// The cursor invariant: whenever an article list is on display, or saved
/// behind the settings screen, a present cursor points inside it.
pub open spec fn wf(v: AppView) -> bool {
    match v.state {
        StateView::DisplayMedia(articles) => match v.row {
            Some(i) => 0 <= i < articles.len(),
            None => true,
        },
        StateView::ManageSettings(saved) => match (saved, v.row) {
            (Some(articles), Some(i)) => 0 <= i < articles.len(),
            _ => true,
        },
        _ => true,
    }
}

/// The state and transition pairs the table lists with an action or an
/// explicit no-op of their own.
pub open spec fn pair_in_table(state: StateView, t: TransitionView) -> bool {
    ||| state is Homescreen && t is FetchMedia
    ||| state is FetchMedia && t is FetchMedia
    ||| state is FetchMedia && t is ReturnMedia
    ||| state is DisplayMedia && t is ReturnMedia
    ||| t is ToSettings
    ||| state is ManageSettings && t is ExitSettings
    ||| state is DisplayMedia && (t is Up || t is Down)
    ||| state is ManageSettings && (t is Up || t is Down || t is Left || t is Right)
    ||| t is Quit
}

/// The transition table is total: `step` answers every pair, and every
/// pair the table does not list leaves the machine exactly as it was.
pub proof fn lemma_unlisted_pairs_are_no_ops(v: AppView, t: TransitionView)
    requires
        !pair_in_table(v.state, t),
    ensures
        step(v, t) == v,
{
}

/// Every transition, from every well-formed machine value, leads to a
/// well-formed machine value: the transition table never lets the cursor
/// escape the list it points into.
pub proof fn lemma_step_preserves_wf(v: AppView, t: TransitionView)
    requires
        wf(v),
    ensures
        wf(step(v, t)),
{
}

/// Entering the settings screen from a display and leaving it again
/// restores the very same article sequence, cursor and running flag, with
/// the news tab active again.
pub proof fn lemma_settings_round_trip(v: AppView)
    requires
        v.state is DisplayMedia,
    ensures
        ({
            let w = step(step(v, TransitionView::ToSettings), TransitionView::ExitSettings);
            &&& w.state == v.state
            &&& w.row == v.row
            &&& w.running == v.running
            &&& w.tab == 0
        }),
{
}

/// A fetch request while a fetch is already in flight changes nothing: the
/// machine keeps the original source list.
pub proof fn lemma_duplicate_fetch(v: AppView, sources: Seq<DataSourceView>)
    requires
        v.state is FetchMedia,
    ensures
        step(v, TransitionView::FetchMedia(sources)) == v,
{
}

/// Quit, from any state whatsoever, clears the running flag and changes
/// nothing else.
pub proof fn lemma_quit_stops_running(v: AppView)
    ensures
        !step(v, TransitionView::Quit).running,
        step(v, TransitionView::Quit).state == v.state,
        step(v, TransitionView::Quit).row == v.row,
        step(v, TransitionView::Quit).tab == v.tab,
{
}

/// The machine value after `n` Down presses in a row.
pub open spec fn repeat_down(v: AppView, n: nat) -> AppView
    decreases n,
{
    if n == 0 {
        v
    } else {
        step(repeat_down(v, (n - 1) as nat), TransitionView::Down)
    }
}

/// The machine value after `n` Up presses in a row.
pub open spec fn repeat_up(v: AppView, n: nat) -> AppView
    decreases n,
{
    if n == 0 {
        v
    } else {
        step(repeat_up(v, (n - 1) as nat), TransitionView::Up)
    }
}

/// With articles on display and nothing selected, the first press selects
/// the first article, whether it is Down or Up.
pub proof fn lemma_first_press_selects_zero(v: AppView)
    requires
        v.state matches StateView::DisplayMedia(articles) && articles.len() >= 1,
        v.row is None,
    ensures
        step(v, TransitionView::Down).row == Some(0int),
        step(v, TransitionView::Up).row == Some(0int),
{
}

proof fn lemma_repeat_down_prefix(v: AppView, n: nat, k: nat)
    requires
        v.state matches StateView::DisplayMedia(articles) && articles.len() == n,
        v.row == Some(0int),
        k < n,
    ensures
        repeat_down(v, k).state == v.state,
        repeat_down(v, k).row == Some(k as int),
        repeat_down(v, k).running == v.running,
        repeat_down(v, k).tab == v.tab,
    decreases k,
{
    if k > 0 {
        lemma_repeat_down_prefix(v, n, (k - 1) as nat);
    }
}

proof fn lemma_repeat_up_prefix(v: AppView, n: nat, k: nat)
    requires
        v.state matches StateView::DisplayMedia(articles) && articles.len() == n,
        v.row == Some(0int),
        1 <= k < n,
    ensures
        repeat_up(v, k).state == v.state,
        repeat_up(v, k).row == Some(n - k),
        repeat_up(v, k).running == v.running,
        repeat_up(v, k).tab == v.tab,
    decreases k,
{
    if k > 1 {
        lemma_repeat_up_prefix(v, n, (k - 1) as nat);
    } else {
        assert(repeat_up(v, 0) == v);
    }
}

/// Cursor wrap, downwards: once the first article is selected, exactly as
/// many Down presses as there are articles walk through the whole list and
/// come back to the first.
pub proof fn lemma_cursor_wrap_down(v: AppView, n: nat)
    requires
        v.state matches StateView::DisplayMedia(articles) && articles.len() == n,
        n >= 1,
        v.row == Some(0int),
    ensures
        repeat_down(v, n).state == v.state,
        repeat_down(v, n).row == Some(0int),
{
    lemma_repeat_down_prefix(v, n, (n - 1) as nat);
}

/// Cursor wrap, upwards: once the first article is selected, exactly as
/// many Up presses as there are articles walk through the whole list
/// backwards and come back to the first.
pub proof fn lemma_cursor_wrap_up(v: AppView, n: nat)
    requires
        v.state matches StateView::DisplayMedia(articles) && articles.len() == n,
        n >= 1,
        v.row == Some(0int),
    ensures
        repeat_up(v, n).state == v.state,
        repeat_up(v, n).row == Some(0int),
{
    if n > 1 {
        lemma_repeat_up_prefix(v, n, (n - 1) as nat);
    } else {
        assert(repeat_up(v, 0) == v);
    }
}

proof fn lemma_repeat_down_shift(v: AppView, k: nat)
    ensures
        repeat_down(v, k + 1) == repeat_down(step(v, TransitionView::Down), k),
    decreases k,
{
    if k > 0 {
        lemma_repeat_down_shift(v, (k - 1) as nat);
    } else {
        assert(repeat_down(v, 0) == v);
        assert(repeat_down(step(v, TransitionView::Down), 0) == step(v, TransitionView::Down));
    }
}

proof fn lemma_repeat_up_shift(v: AppView, k: nat)
    ensures
        repeat_up(v, k + 1) == repeat_up(step(v, TransitionView::Up), k),
    decreases k,
{
    if k > 0 {
        lemma_repeat_up_shift(v, (k - 1) as nat);
    } else {
        assert(repeat_up(v, 0) == v);
        assert(repeat_up(step(v, TransitionView::Up), 0) == step(v, TransitionView::Up));
    }
}

/// Cursor wrap from no selection: the first press selects the first
/// article, and as many further presses as there are articles walk the
/// whole list and return to it — in both directions.
pub proof fn lemma_cursor_wrap_from_unselected(v: AppView, n: nat)
    requires
        v.state matches StateView::DisplayMedia(articles) && articles.len() == n,
        n >= 1,
        v.row is None,
    ensures
        repeat_down(v, n + 1).state == v.state,
        repeat_down(v, n + 1).row == Some(0int),
        repeat_up(v, n + 1).state == v.state,
        repeat_up(v, n + 1).row == Some(0int),
{
    lemma_first_press_selects_zero(v);
    lemma_repeat_down_shift(v, n);
    lemma_cursor_wrap_down(step(v, TransitionView::Down), n);
    lemma_repeat_up_shift(v, n);
    lemma_cursor_wrap_up(step(v, TransitionView::Up), n);
}

} // verus!
