//! The client: which answer a query gets from what is already known, which
//! request has to be sent where nothing is known, and what each outcome of a
//! request changes.
//!
//! The client sends nothing itself. A caller asks with
//! [`GhApiClient::has_release_artifact`] and is told the answer, or to fetch
//! the artifacts of the release, or to wait for a fetch that is under way. It
//! reports what a fetch gave with [`GhApiClient::fetch_completed`].

use crate::artifacts::Artifacts;
use crate::cells::{
    as_map, has_key, lemma_as_map_keys, lemma_as_map_update, lemma_as_map_value, SlotMap,
};
use crate::gates::{is_limited_at, AuthGate, RateLimitGate};
use crate::release::{ArtifactKey, GhRelease, GhReleaseArtifact, ReleaseKey};
use crate::response::{GhApiError, GhApiRet};
use crate::text::{option_text, str_eq};
use crate::time::{
    in_range, instant_after, instant_of, lemma_ten_minutes_are_in_range, Duration, Instant, Now,
};
use vstd::prelude::*;
use vstd::std_specs::cmp::PartialEqSpecImpl;

verus! {

/// The seconds to wait after a reached rate limit where the API names no
/// span: ten minutes.
pub const DEFAULT_RETRY_SECS: u64 = 10 * 60;

/// Whether a release holds an artifact.
#[derive(Debug, Eq)]
pub enum HasReleaseArtifact {
    /// It does.
    Yes {
        /// The URL from which the API serves the artifact.
        url: String,
    },
    /// The release exists and holds no artifact of that name.
    No,
    /// There is no such release.
    NoSuchRelease,
    /// The API asks for a credential, or refuses the one it was given. It
    /// makes sense to ask for the artifact itself then.
    Unauthorized,
    /// The quota of requests is used up until `retry_after`. It is usually
    /// more sensible to ask for the artifact itself than to wait.
    RateLimit { retry_after: Instant },
}

/// An answer as mathematical values.
pub ghost enum HasArtifact {
    Yes { url: Seq<char> },
    No,
    NoSuchRelease,
    Unauthorized,
    RateLimit { retry_after: Instant },
}

impl View for HasReleaseArtifact {
    type V = HasArtifact;

    open spec fn view(&self) -> HasArtifact {
        match self {
            HasReleaseArtifact::Yes { url } => HasArtifact::Yes { url: url@ },
            HasReleaseArtifact::No => HasArtifact::No,
            HasReleaseArtifact::NoSuchRelease => HasArtifact::NoSuchRelease,
            HasReleaseArtifact::Unauthorized => HasArtifact::Unauthorized,
            HasReleaseArtifact::RateLimit { retry_after } => HasArtifact::RateLimit {
                retry_after: *retry_after,
            },
        }
    }
}

impl Clone for HasReleaseArtifact {
    fn clone(&self) -> (copy: Self)
        ensures
            copy == *self,
    {
        match self {
            HasReleaseArtifact::Yes { url } => HasReleaseArtifact::Yes { url: url.clone() },
            HasReleaseArtifact::No => HasReleaseArtifact::No,
            HasReleaseArtifact::NoSuchRelease => HasReleaseArtifact::NoSuchRelease,
            HasReleaseArtifact::Unauthorized => HasReleaseArtifact::Unauthorized,
            HasReleaseArtifact::RateLimit { retry_after } => HasReleaseArtifact::RateLimit {
                retry_after: *retry_after,
            },
        }
    }
}

impl PartialEq for HasReleaseArtifact {
    fn eq(&self, other: &Self) -> (same: bool) {
        match (self, other) {
            (HasReleaseArtifact::Yes { url: a }, HasReleaseArtifact::Yes { url: b }) => str_eq(
                a.as_str(),
                b.as_str(),
            ),
            (HasReleaseArtifact::No, HasReleaseArtifact::No) => true,
            (HasReleaseArtifact::NoSuchRelease, HasReleaseArtifact::NoSuchRelease) => true,
            (HasReleaseArtifact::Unauthorized, HasReleaseArtifact::Unauthorized) => true,
            (
                HasReleaseArtifact::RateLimit { retry_after: a },
                HasReleaseArtifact::RateLimit { retry_after: b },
            ) => a.nanos == b.nanos,
            _ => false,
        }
    }
}

impl PartialEqSpecImpl for HasReleaseArtifact {
    open spec fn obeys_eq_spec() -> bool {
        true
    }

    open spec fn eq_spec(&self, other: &Self) -> bool {
        self@ == other@
    }
}

/// Why a fetch gave no artifacts and no certainty that there are none.
#[derive(Debug)]
pub enum FetchReleaseArtifactError {
    /// No answer could be had or read.
    Error(GhApiError),
    /// The quota of requests is used up until `retry_after`.
    RateLimit { retry_after: Instant },
    /// The credential was refused, or one is asked for.
    Unauthorized,
}

/// The span to wait after a reached rate limit where the API names none.
pub open spec fn default_retry() -> Duration {
    Duration { secs: DEFAULT_RETRY_SECS }
}

/// The point in time until which no request is to be sent after the API has
/// reported at `now` that its quota is used up: `now` and the span that the
/// API named, or `now` and ten minutes where it named none or named one that
/// leads past the last point in time.
pub open spec fn deadline_after(now: Now, retry_after: Option<Duration>) -> Instant {
    match retry_after {
        Some(span) if in_range(now, span) => instant_after(now, span),
        _ => instant_after(now, default_retry()),
    }
}

/// What the outcome of a fetch that ended at `now` says of the release: its
/// artifacts, that it does not exist, or why neither is known.
pub open spec fn fetch_result(
    outcome: Result<GhApiRet<Artifacts>, GhApiError>,
    now: Now,
) -> Result<Option<Artifacts>, FetchReleaseArtifactError> {
    match outcome {
        Ok(GhApiRet::NotFound) => Ok(None),
        Ok(GhApiRet::Success(artifacts)) => Ok(Some(artifacts)),
        Ok(GhApiRet::ReachedRateLimit { retry_after }) => Err(
            FetchReleaseArtifactError::RateLimit { retry_after: deadline_after(now, retry_after) },
        ),
        Ok(GhApiRet::Unauthorized) => Err(FetchReleaseArtifactError::Unauthorized),
        Err(error) => Err(FetchReleaseArtifactError::Error(error)),
    }
}

/// The answer to a query for the artifact `name`, given what is known of its
/// release: the artifacts of the release, or that there is no such release.
pub open spec fn answer_of(known: Option<Artifacts>, name: Seq<char>) -> HasArtifact {
    match known {
        Some(artifacts) => if artifacts@.dom().contains(name) {
            HasArtifact::Yes { url: artifacts@[name] }
        } else {
            HasArtifact::No
        },
        None => HasArtifact::NoSuchRelease,
    }
}

/// Answers a query for the artifact `name` from what is known of its release.
pub fn answer(known: &Option<Artifacts>, name: &str) -> (found: HasReleaseArtifact)
    ensures
        found@ == answer_of(*known, name@),
{
    match known {
        Some(artifacts) => match artifacts.get_artifact_url(name) {
            Some(url) => HasReleaseArtifact::Yes { url },
            None => HasReleaseArtifact::No,
        },
        None => HasReleaseArtifact::NoSuchRelease,
    }
}

/// What a client holds for one release.
#[derive(Debug)]
pub enum ReleaseCell {
    /// Nothing is known of the release and nobody is asking.
    Empty,
    /// A caller is fetching the artifacts of the release, with the client's
    /// credential or without it.
    Fetching { with_token: bool },
    /// The artifacts of the release, or the knowledge that there is no such
    /// release. What is known once is known for good.
    Ready(Option<Artifacts>),
}

impl Default for ReleaseCell {
    fn default() -> (cell: Self)
        ensures
            cell == ReleaseCell::Empty,
    {
        ReleaseCell::Empty
    }
}

/// What a caller has to do next.
#[derive(Debug)]
pub enum Step {
    /// Nothing: this is the answer, or the failure of the transport.
    Done(Result<HasReleaseArtifact, GhApiError>),
    /// Fetch the artifacts of `release`, with the credential `auth_token`
    /// where there is one, and report the outcome.
    Fetch { release: GhRelease, auth_token: Option<String> },
    /// Wait until the fetch that is under way for this release has been
    /// reported, and ask again.
    Wait,
}

/// A step as mathematical values.
pub ghost enum StepView {
    Done(Result<HasArtifact, GhApiError>),
    Fetch { release: ReleaseKey, auth_token: Option<Seq<char>> },
    Wait,
}

impl View for Step {
    type V = StepView;

    open spec fn view(&self) -> StepView {
        match self {
            Step::Done(Ok(found)) => StepView::Done(Ok(found@)),
            Step::Done(Err(error)) => StepView::Done(Err(*error)),
            Step::Fetch { release, auth_token } => StepView::Fetch {
                release: release@,
                auth_token: option_text(*auth_token),
            },
            Step::Wait => StepView::Wait,
        }
    }
}

/// What a client knows and remembers.
#[verifier::ext_equal]
pub ghost struct ClientState {
    /// What is held for each release that was asked for.
    pub cells: Map<ReleaseKey, ReleaseCell>,
    /// The deadline before which no request is to be sent, if there is one.
    pub retry_after: Option<Instant>,
    /// The credential, if the client was given one.
    pub auth_token: Option<Seq<char>>,
    /// Whether the credential is still to be sent.
    pub is_auth_token_valid: bool,
}

/// What `state` holds for `release`. A release that was never asked for is
/// one of which nothing is known.
pub open spec fn cell_of(state: ClientState, release: ReleaseKey) -> ReleaseCell {
    if state.cells.dom().contains(release) {
        state.cells[release]
    } else {
        ReleaseCell::Empty
    }
}

/// `state` with `cell` held for `release`.
pub open spec fn with_cell(state: ClientState, release: ReleaseKey, cell: ReleaseCell) -> ClientState {
    ClientState { cells: state.cells.insert(release, cell), ..state }
}

/// The state of a client that has asked nothing yet. Its credential is to be
/// sent exactly if it has one.
pub open spec fn initial_state(auth_token: Option<Seq<char>>) -> ClientState {
    ClientState {
        cells: Map::empty(),
        retry_after: None,
        auth_token,
        is_auth_token_valid: auth_token is Some,
    }
}

/// What a query for `artifact` at `now` does to `state`, and what the caller
/// is told.
///
/// What is known of the release answers the query. A fetch that is under way
/// makes the caller wait. Where nothing is known, the deadline of the rate
/// limit decides: before it the answer is the deadline, and past it, or
/// without one, the caller is told to fetch, with the credential as long as
/// it is good.
pub open spec fn query_step(state: ClientState, artifact: ArtifactKey, now: Now) -> (
    ClientState,
    StepView,
) {
    let release = artifact.release;
    match cell_of(state, release) {
        ReleaseCell::Ready(known) => (
            state,
            StepView::Done(Ok(answer_of(known, artifact.artifact_name))),
        ),
        ReleaseCell::Fetching { .. } => (state, StepView::Wait),
        ReleaseCell::Empty => if is_limited_at(state.retry_after, instant_of(now)) {
            (
                with_cell(state, release, ReleaseCell::Empty),
                StepView::Done(Ok(HasArtifact::RateLimit { retry_after: state.retry_after->0 })),
            )
        } else {
            (
                ClientState {
                    cells: state.cells.insert(
                        release,
                        ReleaseCell::Fetching { with_token: state.is_auth_token_valid },
                    ),
                    retry_after: None,
                    ..state
                },
                StepView::Fetch {
                    release,
                    auth_token: if state.is_auth_token_valid {
                        state.auth_token
                    } else {
                        None
                    },
                },
            )
        },
    }
}

/// What the outcome of the fetch for `artifact`, reported at `now`, does to
/// `state`, and what the caller is told.
///
/// A refused credential is never sent again, and the caller is told to fetch
/// once more without it. Every other outcome ends the query: artifacts, or
/// the knowledge that there is no such release, are kept for good; a reached
/// rate limit sets the deadline; a refusal without a credential and a
/// failure of the transport are handed on, and leave the release unknown.
/// An outcome that no fetch was asked for counts as a query.
pub open spec fn fetched_step(
    state: ClientState,
    artifact: ArtifactKey,
    outcome: Result<GhApiRet<Artifacts>, GhApiError>,
    now: Now,
) -> (ClientState, StepView) {
    let release = artifact.release;
    match cell_of(state, release) {
        ReleaseCell::Fetching { with_token } => if with_token && outcome == Ok::<
            GhApiRet<Artifacts>,
            GhApiError,
        >(GhApiRet::Unauthorized) {
            (
                ClientState {
                    cells: state.cells.insert(release, ReleaseCell::Fetching { with_token: false }),
                    is_auth_token_valid: false,
                    ..state
                },
                StepView::Fetch { release, auth_token: None },
            )
        } else {
            match fetch_result(outcome, now) {
                Ok(known) => (
                    with_cell(state, release, ReleaseCell::Ready(known)),
                    StepView::Done(Ok(answer_of(known, artifact.artifact_name))),
                ),
                Err(FetchReleaseArtifactError::Unauthorized) => (
                    with_cell(state, release, ReleaseCell::Empty),
                    StepView::Done(Ok(HasArtifact::Unauthorized)),
                ),
                Err(FetchReleaseArtifactError::RateLimit { retry_after }) => (
                    ClientState {
                        cells: state.cells.insert(release, ReleaseCell::Empty),
                        retry_after: Some(retry_after),
                        ..state
                    },
                    StepView::Done(Ok(HasArtifact::RateLimit { retry_after })),
                ),
                Err(FetchReleaseArtifactError::Error(error)) => (
                    with_cell(state, release, ReleaseCell::Empty),
                    StepView::Done(Err(error)),
                ),
            }
        },
        _ => query_step(state, artifact, now),
    }
}


/// The client of the API that answers whether a release holds an artifact.
///
/// It remembers the artifacts of every release that it has learnt, the
/// deadline of a reached rate limit, and whether its credential was refused.
#[derive(Debug)]
pub struct GhApiClient {
    release_artifacts: SlotMap<GhRelease, ReleaseCell>,
    retry_after: RateLimitGate,
    auth_token: Option<String>,
    is_auth_token_valid: AuthGate,
}

impl View for GhApiClient {
    type V = ClientState;

    closed spec fn view(&self) -> ClientState {
        ClientState {
            cells: as_map(self.release_artifacts@),
            retry_after: self.retry_after@,
            auth_token: option_text(self.auth_token),
            is_auth_token_valid: self.is_auth_token_valid@,
        }
    }
}

fn clone_token(token: &Option<String>) -> (copy: Option<String>)
    ensures
        option_text(copy) == option_text(*token),
{
    match token {
        Some(text) => Some(text.clone()),
        None => None,
    }
}

impl GhApiClient {
    /// Whether the client is in order: no release is held twice, and only a
    /// credential that the client has is held to be good.
    pub closed spec fn wf(&self) -> bool {
        &&& self.release_artifacts.wf()
        &&& self.is_auth_token_valid@ ==> self.auth_token is Some
    }

    /// A client that has asked nothing yet, with the credential `auth_token`
    /// or without one.
    pub fn new(auth_token: Option<String>) -> (client: Self)
        ensures
            client.wf(),
            client@ == initial_state(option_text(auth_token)),
    {
        let has_token = auth_token.is_some();
        let client = GhApiClient {
            release_artifacts: Default::default(),
            retry_after: RateLimitGate::new(),
            auth_token,
            is_auth_token_valid: AuthGate::new(has_token),
        };
        proof {
            assert(client@.cells =~= Map::empty());
        }
        client
    }

    /// The deadline before which the client sends no request, if there is
    /// one.
    pub fn retry_after(&self) -> (deadline: Option<Instant>)
        ensures
            deadline == self@.retry_after,
    {
        self.retry_after.peek()
    }

    /// Whether the client still sends its credential.
    pub fn is_auth_token_valid(&self) -> (valid: bool)
        ensures
            valid == self@.is_auth_token_valid,
    {
        self.is_auth_token_valid.is_valid()
    }

    /// Reads the outcome of a fetch that ended at `now`.
    ///
    /// Artifacts and the knowledge that there is no such release are
    /// results. A reached rate limit becomes the deadline `now` and the span
    /// that the API named, or `now` and ten minutes where it named none or
    /// named one that leads past the last point in time.
    pub fn do_fetch_release_artifacts(
        outcome: Result<GhApiRet<Artifacts>, GhApiError>,
        now: Now,
    ) -> (result: Result<Option<Artifacts>, FetchReleaseArtifactError>)
        ensures
            result == fetch_result(outcome, now),
    {
        match outcome {
            Ok(GhApiRet::NotFound) => Ok(None),
            Ok(GhApiRet::Success(artifacts)) => Ok(Some(artifacts)),
            Ok(GhApiRet::ReachedRateLimit { retry_after }) => {
                let named = match retry_after {
                    Some(span) => now.checked_add(span),
                    None => None,
                };
                let retry_after = match named {
                    Some(deadline) => deadline,
                    None => Instant::from_nanos(
                        now.nanos as u128 + (DEFAULT_RETRY_SECS as u128) * 1_000_000_000,
                    ),
                };
                Err(FetchReleaseArtifactError::RateLimit { retry_after })
            },
            Ok(GhApiRet::Unauthorized) => Err(FetchReleaseArtifactError::Unauthorized),
            Err(error) => Err(FetchReleaseArtifactError::Error(error)),
        }
    }

    /// Asks at `now` whether the release of `artifact` holds it.
    ///
    /// What is known of the release answers at once, without a request. A
    /// caller that is told to fetch reports the outcome with
    /// [`Self::fetch_completed`]; one that is told to wait asks again once
    /// the fetch under way has been reported.
    pub fn has_release_artifact(&mut self, artifact: &GhReleaseArtifact, now: Now) -> (step: Step)
        requires
            old(self).wf(),
        ensures
            final(self).wf(),
            final(self)@ == query_step(old(self)@, artifact@, now).0,
            step@ == query_step(old(self)@, artifact@, now).1,
    {
        let ghost before = self.release_artifacts@;
        proof {
            lemma_as_map_keys(before, artifact.release@);
        }
        let slot = self.release_artifacts.get(artifact.release.clone());
        let ghost slots = self.release_artifacts@;
        proof {
            lemma_as_map_value(slots, slot as int);
            if !has_key(before, artifact.release@) {
                assert(slots =~= before.push((artifact.release@, ReleaseCell::Empty)));
                assert(slots.drop_last() =~= before);
            }
        }
        match self.release_artifacts.value(slot) {
            ReleaseCell::Ready(known) => {
                let found = answer(known, artifact.artifact_name.as_str());
                Step::Done(Ok(found))
            },
            ReleaseCell::Fetching { .. } => Step::Wait,
            ReleaseCell::Empty => {
                match self.retry_after.observe(now.instant()) {
                    Some(retry_after) => {
                        proof {
                            assert(self@.cells =~= old(self)@.cells.insert(
                                artifact.release@,
                                ReleaseCell::Empty,
                            ));
                        }
                        Step::Done(Ok(HasReleaseArtifact::RateLimit { retry_after }))
                    },
                    None => {
                        let with_token = self.is_auth_token_valid.is_valid();
                        self.release_artifacts.set(slot, ReleaseCell::Fetching { with_token });
                        let auth_token = if with_token {
                            clone_token(&self.auth_token)
                        } else {
                            None
                        };
                        proof {
                            lemma_as_map_update(
                                slots,
                                slot as int,
                                ReleaseCell::Fetching { with_token },
                            );
                            assert(self@.cells =~= old(self)@.cells.insert(
                                artifact.release@,
                                ReleaseCell::Fetching { with_token },
                            ));
                        }
                        Step::Fetch { release: artifact.release.clone(), auth_token }
                    },
                }
            },
        }
    }

    /// Reports at `now` what the fetch for the release of `artifact` gave.
    ///
    /// Where the fetch carried the credential and the API refused it, the
    /// credential is given up and the caller is told to fetch once more
    /// without it. Any other outcome ends the query: see [`fetched_step`].
    pub fn fetch_completed(
        &mut self,
        artifact: &GhReleaseArtifact,
        outcome: Result<GhApiRet<Artifacts>, GhApiError>,
        now: Now,
    ) -> (step: Step)
        requires
            old(self).wf(),
        ensures
            final(self).wf(),
            final(self)@ == fetched_step(old(self)@, artifact@, outcome, now).0,
            step@ == fetched_step(old(self)@, artifact@, outcome, now).1,
    {
        let ghost slots = self.release_artifacts@;
        proof {
            lemma_as_map_keys(slots, artifact.release@);
        }
        let fetching = match self.release_artifacts.find(&artifact.release) {
            Some(slot) => {
                proof {
                    lemma_as_map_value(slots, slot as int);
                }
                match self.release_artifacts.value(slot) {
                    ReleaseCell::Fetching { with_token } => Some((slot, *with_token)),
                    _ => None,
                }
            },
            None => None,
        };
        let (slot, with_token) = match fetching {
            Some(found) => found,
            None => {
                return self.has_release_artifact(artifact, now);
            },
        };
        let refused = match &outcome {
            Ok(GhApiRet::Unauthorized) => true,
            _ => false,
        };
        if with_token && refused {
            self.is_auth_token_valid.invalidate();
            self.release_artifacts.set(slot, ReleaseCell::Fetching { with_token: false });
            proof {
                lemma_as_map_update(slots, slot as int, ReleaseCell::Fetching { with_token: false });
            }
            return Step::Fetch { release: artifact.release.clone(), auth_token: None };
        }
        match Self::do_fetch_release_artifacts(outcome, now) {
            Ok(known) => {
                let found = answer(&known, artifact.artifact_name.as_str());
                proof {
                    lemma_as_map_update(slots, slot as int, ReleaseCell::Ready(known));
                }
                self.release_artifacts.set(slot, ReleaseCell::Ready(known));
                Step::Done(Ok(found))
            },
            Err(FetchReleaseArtifactError::Unauthorized) => {
                self.release_artifacts.set(slot, ReleaseCell::Empty);
                proof {
                    lemma_as_map_update(slots, slot as int, ReleaseCell::Empty);
                }
                Step::Done(Ok(HasReleaseArtifact::Unauthorized))
            },
            Err(FetchReleaseArtifactError::RateLimit { retry_after }) => {
                self.release_artifacts.set(slot, ReleaseCell::Empty);
                self.retry_after.record(retry_after);
                proof {
                    lemma_as_map_update(slots, slot as int, ReleaseCell::Empty);
                }
                Step::Done(Ok(HasReleaseArtifact::RateLimit { retry_after }))
            },
            Err(FetchReleaseArtifactError::Error(error)) => {
                self.release_artifacts.set(slot, ReleaseCell::Empty);
                proof {
                    lemma_as_map_update(slots, slot as int, ReleaseCell::Empty);
                }
                Step::Done(Err(error))
            },
        }
    }
}


/// One fetch serves every query for a release. The first query for a release
/// of which nothing is known is told to fetch; a query for the same release
/// that comes while the fetch is under way is told to wait, and changes
/// nothing; and once the fetch has given the artifacts, both queries are
/// answered with the URL of their artifact, the second without a request.
pub proof fn lemma_one_fetch_serves_all(
    state: ClientState,
    first: ArtifactKey,
    second: ArtifactKey,
    artifacts: Artifacts,
    asked: Now,
    joined: Now,
    fetched: Now,
    asked_again: Now,
)
    requires
        cell_of(state, first.release) is Empty,
        !is_limited_at(state.retry_after, instant_of(asked)),
        second.release == first.release,
        artifacts@.dom().contains(first.artifact_name),
        artifacts@.dom().contains(second.artifact_name),
    ensures
        ({
            let (fetching, told_first) = query_step(state, first, asked);
            let (joining, told_second) = query_step(fetching, second, joined);
            let (known, answer_first) = fetched_step(
                joining,
                first,
                Ok(GhApiRet::Success(artifacts)),
                fetched,
            );
            let (after, answer_second) = query_step(known, second, asked_again);
            &&& told_first is Fetch
            &&& told_second == StepView::Wait
            &&& joining == fetching
            &&& answer_first == StepView::Done(
                Ok(HasArtifact::Yes { url: artifacts@[first.artifact_name] }),
            )
            &&& answer_second == StepView::Done(
                Ok(HasArtifact::Yes { url: artifacts@[second.artifact_name] }),
            )
            &&& after == known
        }),
{
}

/// A release that exists and does not hold the artifact: the fetch that
/// gives its artifacts answers `No`, and so does every later query, without
/// a request.
pub proof fn lemma_absent_artifact_is_no(
    state: ClientState,
    artifact: ArtifactKey,
    artifacts: Artifacts,
    fetched: Now,
    asked_again: Now,
)
    requires
        cell_of(state, artifact.release) is Fetching,
        !artifacts@.dom().contains(artifact.artifact_name),
    ensures
        ({
            let (known, told) = fetched_step(
                state,
                artifact,
                Ok(GhApiRet::Success(artifacts)),
                fetched,
            );
            &&& told == StepView::Done(Ok(HasArtifact::No))
            &&& query_step(known, artifact, asked_again) == (
                known,
                StepView::Done(Ok(HasArtifact::No)),
            )
        }),
{
}

/// A release that does not exist: the fetch that finds none answers
/// `NoSuchRelease`, and so does every later query for any artifact of it,
/// without a request.
pub proof fn lemma_absent_release_is_no_such_release(
    state: ClientState,
    artifact: ArtifactKey,
    other: ArtifactKey,
    fetched: Now,
    asked_again: Now,
)
    requires
        cell_of(state, artifact.release) is Fetching,
        other.release == artifact.release,
    ensures
        ({
            let (known, told) = fetched_step(state, artifact, Ok(GhApiRet::NotFound), fetched);
            &&& told == StepView::Done(Ok(HasArtifact::NoSuchRelease))
            &&& query_step(known, other, asked_again) == (
                known,
                StepView::Done(Ok(HasArtifact::NoSuchRelease)),
            )
        }),
{
}

/// A refused credential costs one more request and no more. Where the fetch
/// that carried the credential is refused, the credential is given up and the
/// caller is told to fetch once more, without it; whatever that second fetch
/// gives ends the query.
pub proof fn lemma_refused_credential_is_retried_once(
    state: ClientState,
    artifact: ArtifactKey,
    second: Result<GhApiRet<Artifacts>, GhApiError>,
    refused: Now,
    fetched: Now,
)
    requires
        cell_of(state, artifact.release) == (ReleaseCell::Fetching { with_token: true }),
    ensures
        ({
            let (downgraded, told) = fetched_step(
                state,
                artifact,
                Ok(GhApiRet::Unauthorized),
                refused,
            );
            let (after, answer) = fetched_step(downgraded, artifact, second, fetched);
            &&& told == StepView::Fetch { release: artifact.release, auth_token: None }
            &&& !downgraded.is_auth_token_valid
            &&& answer is Done
            &&& !after.is_auth_token_valid
        }),
{
}

/// A credential that was given up stays given up: from then on no query and
/// no outcome of a fetch, for whatever release, makes it good again, and no
/// caller is ever told to send it.
pub proof fn lemma_given_up_credential_is_never_sent(
    state: ClientState,
    artifact: ArtifactKey,
    outcome: Result<GhApiRet<Artifacts>, GhApiError>,
    now: Now,
)
    requires
        !state.is_auth_token_valid,
    ensures
        !query_step(state, artifact, now).0.is_auth_token_valid,
        query_step(state, artifact, now).1 matches StepView::Fetch { auth_token, .. }
            ==> auth_token is None,
        !fetched_step(state, artifact, outcome, now).0.is_auth_token_valid,
        fetched_step(state, artifact, outcome, now).1 matches StepView::Fetch { auth_token, .. }
            ==> auth_token is None,
{
}

/// A reached rate limit holds for every release. The fetch that reports it
/// at `reported`, with the span `span`, is answered with the deadline
/// `reported + span`, which the client keeps, and nothing is kept of the
/// release. Until that deadline every query for a release of which nothing
/// is known is answered with the deadline, and no caller is told to fetch;
/// the first such query past the deadline is told to fetch, and takes the
/// deadline away.
///
/// This holds at every reading of the clock for every span of up to ten
/// minutes, and for every longer span that does not lead past the last point
/// in time.
pub proof fn lemma_rate_limit_holds_for_every_release(
    state: ClientState,
    artifact: ArtifactKey,
    other: ArtifactKey,
    span: Duration,
    reported: Now,
    later: Now,
)
    requires
        cell_of(state, artifact.release) is Fetching,
        span.secs <= DEFAULT_RETRY_SECS || in_range(reported, span),
        other.release != artifact.release ==> cell_of(state, other.release) is Empty,
    ensures
        ({
            let deadline = instant_after(reported, span);
            let (limited, told) = fetched_step(
                state,
                artifact,
                Ok(GhApiRet::ReachedRateLimit { retry_after: Some(span) }),
                reported,
            );
            let (after, answer) = query_step(limited, other, later);
            &&& told == StepView::Done(Ok(HasArtifact::RateLimit { retry_after: deadline }))
            &&& limited.retry_after == Some(deadline)
            &&& cell_of(limited, artifact.release) is Empty
            &&& later.nanos <= deadline.nanos ==> answer == StepView::Done(
                Ok(HasArtifact::RateLimit { retry_after: deadline }),
            ) && after.retry_after == Some(deadline)
            &&& later.nanos > deadline.nanos ==> answer is Fetch && after.retry_after is None
        }),
{
    if span.secs <= DEFAULT_RETRY_SECS {
        lemma_ten_minutes_are_in_range(reported, span);
    }
}

/// A fetch that meets the rate limit sets the deadline and keeps nothing.
/// Where nothing is known of a release and no deadline stands in the way, the
/// query is told to fetch; where that fetch reports at `reported` that the
/// quota is used up for the span `span`, the query is answered with the
/// deadline `reported + span`, not with ten minutes and not with a failure;
/// the client keeps that deadline; and nothing is kept of the release.
///
/// This holds at every reading of the clock for every span of up to ten
/// minutes, and for every longer span that does not lead past the last point
/// in time.
pub proof fn lemma_rate_limited_fetch_sets_the_deadline(
    state: ClientState,
    artifact: ArtifactKey,
    span: Duration,
    asked: Now,
    reported: Now,
)
    requires
        cell_of(state, artifact.release) is Empty,
        !is_limited_at(state.retry_after, instant_of(asked)),
        span.secs <= DEFAULT_RETRY_SECS || in_range(reported, span),
    ensures
        ({
            let deadline = instant_after(reported, span);
            let (fetching, told) = query_step(state, artifact, asked);
            let (limited, answer) = fetched_step(
                fetching,
                artifact,
                Ok(GhApiRet::ReachedRateLimit { retry_after: Some(span) }),
                reported,
            );
            &&& told is Fetch
            &&& answer == StepView::Done(Ok(HasArtifact::RateLimit { retry_after: deadline }))
            &&& deadline.nanos == reported.nanos + span.secs * 1_000_000_000
            &&& limited.retry_after == Some(deadline)
            &&& cell_of(limited, artifact.release) is Empty
        }),
{
    if span.secs <= DEFAULT_RETRY_SECS {
        lemma_ten_minutes_are_in_range(reported, span);
    }
}

/// A reached rate limit for which the API names no span, or one that leads
/// past the last point in time, lasts ten minutes.
pub proof fn lemma_rate_limit_without_span_lasts_ten_minutes(
    state: ClientState,
    artifact: ArtifactKey,
    retry_after: Option<Duration>,
    reported: Now,
)
    requires
        cell_of(state, artifact.release) is Fetching,
        retry_after matches Some(span) ==> !in_range(reported, span),
    ensures
        ({
            let deadline = instant_after(reported, default_retry());
            let (limited, told) = fetched_step(
                state,
                artifact,
                Ok(GhApiRet::ReachedRateLimit { retry_after }),
                reported,
            );
            &&& told == StepView::Done(Ok(HasArtifact::RateLimit { retry_after: deadline }))
            &&& limited.retry_after == Some(deadline)
            &&& deadline.nanos == reported.nanos + 600_000_000_000
        }),
{
}

/// What is known of a release is known for good: no query and no outcome of
/// a fetch, for whatever release, changes or takes away the artifacts of a
/// release that the client has learnt, or the knowledge that there is no such
/// release.
pub proof fn lemma_known_release_stays_known(
    state: ClientState,
    release: ReleaseKey,
    artifact: ArtifactKey,
    outcome: Result<GhApiRet<Artifacts>, GhApiError>,
    now: Now,
)
    requires
        cell_of(state, release) is Ready,
    ensures
        cell_of(query_step(state, artifact, now).0, release) == cell_of(state, release),
        cell_of(fetched_step(state, artifact, outcome, now).0, release) == cell_of(
            state,
            release,
        ),
{
}

/// Only artifacts and the knowledge that there is no such release are kept.
/// After a fetch that ended the query in any other way, nothing is known of
/// the release, so that the next query for it starts afresh.
pub proof fn lemma_only_results_are_kept(
    state: ClientState,
    artifact: ArtifactKey,
    outcome: Result<GhApiRet<Artifacts>, GhApiError>,
    now: Now,
)
    requires
        cell_of(state, artifact.release) is Fetching,
    ensures
        ({
            let (after, told) = fetched_step(state, artifact, outcome, now);
            let cell = cell_of(after, artifact.release);
            &&& cell is Ready <==> outcome matches Ok(GhApiRet::Success(_)) || outcome == Ok::<
                GhApiRet<Artifacts>,
                GhApiError,
            >(GhApiRet::NotFound)
            &&& told is Done && !(cell is Ready) ==> cell is Empty
            &&& told is Fetch ==> cell == (ReleaseCell::Fetching { with_token: false })
        }),
{
}

/// A refusal is an answer only where the request carried no credential: the
/// answer `Unauthorized` comes from a fetch without the credential that the
/// API refused, and from nothing else.
pub proof fn lemma_unauthorized_means_refused_without_credential(
    state: ClientState,
    artifact: ArtifactKey,
    outcome: Result<GhApiRet<Artifacts>, GhApiError>,
    now: Now,
)
    ensures
        query_step(state, artifact, now).1 != StepView::Done(Ok(HasArtifact::Unauthorized)),
        fetched_step(state, artifact, outcome, now).1 == StepView::Done(
            Ok(HasArtifact::Unauthorized),
        ) <==> cell_of(state, artifact.release) == (ReleaseCell::Fetching { with_token: false })
            && outcome == Ok::<GhApiRet<Artifacts>, GhApiError>(GhApiRet::Unauthorized),
{
}

} // verus!
