use vstd::prelude::*;

use crate::channel::{new_transition_channel, send_transition, try_recv_transition};
use crate::newsroomcore::datasources::DataSources;
use crate::newsroomcore::newsarticle::NewsArticle;
use crate::newsroomcore::newsroomstate::{
    step, step_effect, wf, AppView, NewsroomState, NewsroomTransitions, StateView, TransitionView,
};
use crate::settings::Settings;
use tokio::sync::mpsc::{UnboundedReceiver, UnboundedSender};

verus! {

/// The single owner of the application state. All mutation is serialized:
/// producers enqueue transitions on `tx`, and the owner drains them one at
/// a time through `poll_and_run_action`.
pub struct App {
    pub newsroom_state: NewsroomState,
    pub settings: Settings,
    pub running: bool,
    pub tx: UnboundedSender<NewsroomTransitions>,
    pub rx: UnboundedReceiver<NewsroomTransitions>,
    pub tab: u16,
    pub row: Option<usize>,
}

impl View for App {
    type V = AppView;

    open spec fn view(&self) -> AppView {
        AppView {
            state: self.newsroom_state@,
            running: self.running,
            tab: self.tab as int,
            row: match self.row {
                Some(i) => Some(i as int),
                None => None,
            },
        }
    }
}

/// The transition the tab key asks for: leave the settings screen when it
/// is open, enter it from anywhere else.
pub open spec fn tab_request(state: StateView) -> TransitionView {
    match state {
        StateView::ManageSettings(_) => TransitionView::ExitSettings,
        _ => TransitionView::ToSettings,
    }
}

/// The link of the selected article: present exactly when articles are on
/// display and the cursor points inside the list.
pub open spec fn spec_selected_link(v: AppView) -> Option<Seq<char>> {
    match (v.state, v.row) {
        (StateView::DisplayMedia(articles), Some(i)) => if 0 <= i < articles.len() {
            Some(articles[i].link)
        } else {
            None
        },
        _ => None,
    }
}

/// A copy of a source list with the same content.
fn clone_sources(sources: &Vec<DataSources>) -> (r: Vec<DataSources>)
    ensures
        r.deep_view() == sources.deep_view(),
{
    let r = sources.clone();
    proof {
        assert(r.deep_view() =~= sources.deep_view());
    }
    r
}

impl App {
    /// A fresh application: the home screen, running, news tab active,
    /// nothing selected, default settings, and a new transition channel.
    pub fn new() -> (app: App)
        ensures
            app@ == (AppView {
                state: StateView::Homescreen,
                running: true,
                tab: 0,
                row: None,
            }),
            wf(app@),
            app.settings@.theme == crate::settings::default_theme(),
            app.settings@.sources == crate::settings::default_config().sources,
    {
        let (tx, rx) = new_transition_channel();
        App {
            settings: Settings::new(),
            newsroom_state: NewsroomState::Homescreen,
            running: true,
            tx,
            rx,
            tab: 0,
            row: None,
        }
    }

    /// One Down press: advance the selection, wrapping to the first
    /// article, exactly as the transition table says.
    pub fn next(&mut self)
        ensures
            final(self)@ == step(old(self)@, TransitionView::Down),
            final(self).settings == old(self).settings,
    {
        match &self.newsroom_state {
            NewsroomState::DisplayMedia(articles) => {
                if articles.len() > 0 {
                    self.row = match self.row {
                        Some(i) => if i >= articles.len() - 1 {
                            Some(0)
                        } else {
                            Some(i + 1)
                        },
                        None => Some(0),
                    };
                }
            },
            _ => {},
        }
    }

    /// One Up press: retreat the selection, wrapping to the last article,
    /// exactly as the transition table says.
    pub fn previous(&mut self)
        ensures
            final(self)@ == step(old(self)@, TransitionView::Up),
            final(self).settings == old(self).settings,
    {
        match &self.newsroom_state {
            NewsroomState::DisplayMedia(articles) => {
                if articles.len() > 0 {
                    self.row = match self.row {
                        Some(i) => if i == 0 {
                            Some(articles.len() - 1)
                        } else {
                            Some(i - 1)
                        },
                        None => Some(0),
                    };
                }
            },
            _ => {},
        }
    }

    /// Applies one transition to the live state, exactly as the transition
    /// table `step` describes; total over every state and transition pair.
    /// Returns the sources the aggregator must be started on when the
    /// transition began a fetch, and nothing otherwise.
    pub fn collect(&mut self, transition: NewsroomTransitions) -> (fetch: Option<Vec<DataSources>>)
        ensures
            final(self)@ == step(old(self)@, transition@),
            fetch.deep_view() == step_effect(old(self)@, transition@),
            final(self).settings == old(self).settings,
    {
        let mut state = NewsroomState::Homescreen;
        core::mem::swap(&mut state, &mut self.newsroom_state);
        match (state, transition) {
            (NewsroomState::Homescreen, NewsroomTransitions::FetchMedia(sources)) => {
                let fetch_now = clone_sources(&sources);
                self.newsroom_state = NewsroomState::FetchMedia(sources);
                Some(fetch_now)
            },
            (NewsroomState::FetchMedia(sources), NewsroomTransitions::FetchMedia(_)) => {
                self.newsroom_state = NewsroomState::FetchMedia(sources);
                None
            },
            (NewsroomState::FetchMedia(_), NewsroomTransitions::ReturnMedia(articles)) => {
                self.newsroom_state = NewsroomState::DisplayMedia(articles);
                self.row = None;
                None
            },
            (NewsroomState::DisplayMedia(articles), NewsroomTransitions::ReturnMedia(_)) => {
                self.newsroom_state = NewsroomState::DisplayMedia(articles);
                None
            },
            (NewsroomState::DisplayMedia(articles), NewsroomTransitions::ToSettings) => {
                self.tab = 1;
                self.newsroom_state = NewsroomState::ManageSettings(Some(articles));
                None
            },
            (_, NewsroomTransitions::ToSettings) => {
                self.tab = 1;
                self.newsroom_state = NewsroomState::ManageSettings(None);
                None
            },
            (NewsroomState::ManageSettings(saved), NewsroomTransitions::ExitSettings) => {
                self.tab = 0;
                match saved {
                    Some(articles) => {
                        self.newsroom_state = NewsroomState::DisplayMedia(articles);
                    },
                    None => {
                        self.newsroom_state = NewsroomState::Homescreen;
                    },
                }
                None
            },
            (NewsroomState::DisplayMedia(articles), NewsroomTransitions::Up) => {
                self.newsroom_state = NewsroomState::DisplayMedia(articles);
                self.previous();
                None
            },
            (NewsroomState::DisplayMedia(articles), NewsroomTransitions::Down) => {
                self.newsroom_state = NewsroomState::DisplayMedia(articles);
                self.next();
                None
            },
            (restored, NewsroomTransitions::Quit) => {
                self.running = false;
                self.newsroom_state = restored;
                None
            },
            (restored, _) => {
                self.newsroom_state = restored;
                None
            },
        }
    }

    /// The transition the tab key sends for the current state.
    pub fn tab_transition(&self) -> (t: NewsroomTransitions)
        ensures
            t@ == tab_request(self@.state),
    {
        match &self.newsroom_state {
            NewsroomState::ManageSettings(_) => NewsroomTransitions::ExitSettings,
            _ => NewsroomTransitions::ToSettings,
        }
    }

    /// Requests the tab change by enqueueing the matching transition; the
    /// state itself changes only when the owner next polls the channel.
    pub fn change_tab(&self) {
        let t = self.tab_transition();
        let _sent = send_transition(&self.tx, t);
    }

    /// The link of the currently selected article, if one is selected.
    pub fn selected_link(&self) -> (link: Option<&String>)
        ensures
            link.deep_view() == spec_selected_link(self@),
    {
        match &self.newsroom_state {
            NewsroomState::DisplayMedia(articles) => match self.row {
                Some(i) => if i < articles.len() {
                    Some(&articles[i].link)
                } else {
                    None
                },
                None => None,
            },
            _ => None,
        }
    }

    /// The head of a background load: announces over the channel that a
    /// fetch of these sources is under way. Reports whether the channel
    /// accepted the transition.
    pub fn announce_fetch(
        tx: &UnboundedSender<NewsroomTransitions>,
        sources: &Vec<DataSources>,
    ) -> bool {
        send_transition(tx, NewsroomTransitions::FetchMedia(clone_sources(sources)))
    }

    /// The tail of a background load: shuffles the collected articles and
    /// hands them to the state owner as a ReturnMedia transition. Reports
    /// whether the channel accepted the transition.
    pub fn deliver_media(
        tx: &UnboundedSender<NewsroomTransitions>,
        articles: Vec<NewsArticle>,
    ) -> bool {
        let shuffled = crate::newsroomcore::newsfetchrss::finalize_aggregate(articles);
        send_transition(tx, NewsroomTransitions::ReturnMedia(shuffled))
    }

    /// One render tick. The state machine has nothing to do on a bare tick.
    pub fn tick(&mut self)
        ensures
            *final(self) == *old(self),
    {
    }

    /// Drains at most one pending transition from the channel and applies
    /// it. Either nothing was pending and nothing changes, or the new state
    /// is one table step from the old one and the returned sources are that
    /// step's fetch effect.
    pub fn poll_and_run_action(&mut self) -> (fetch: Option<Vec<DataSources>>)
        ensures
            final(self).settings == old(self).settings,
            (final(self)@ == old(self)@ && fetch is None) || (exists|t: TransitionView|
                final(self)@ == step(old(self)@, t) && fetch.deep_view() == step_effect(
                    old(self)@,
                    t,
                )),
    {
        let ghost pre = self@;
        match try_recv_transition(&mut self.rx) {
            Some(transition) => {
                let ghost t = transition@;
                let fetch = self.collect(transition);
                proof {
                    assert(self@ == step(pre, t) && fetch.deep_view() == step_effect(pre, t));
                }
                fetch
            },
            None => None,
        }
    }
}

} // verus!
