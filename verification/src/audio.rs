//! Supervision of the one external process that renders a stream.
//!
//! [`AudioManager`] owns the single slot that can hold the handle of a
//! running player. It starts and signals no process itself: its operations
//! decide what has to happen and hand the caller the handles to terminate and
//! the command to spawn. The protocol for the caller, who serializes all
//! calls on one manager:
//!
//! * `play`: on `Ok(plan)`, terminate and reap `plan.superseded` if there is
//!   one, then spawn `plan.command`; if the spawn succeeds, pass the new
//!   handle to `started` and terminate and reap whatever it returns. If the
//!   spawn fails there is nothing more to do: the manager is already idle.
//!   On `Err`, do nothing.
//! * `stop`: terminate and reap the handle returned, if any. A failure to
//!   signal the process changes nothing for the manager, which is idle as
//!   soon as `stop` returns.
//! * When the manager goes out of use, call `stop` a last time.

use crate::stream_url::{
    check_parts, is_private_host, is_web_scheme, parse_url, parsed_url, url_check, UrlError,
    UrlParts, UrlPartsView,
};
use crate::text::{decimal, decimal_text};
use vstd::prelude::*;

verus! {

/// The invocation of the external player for one stream.
#[derive(Debug)]
pub struct PlayerCommand {
    /// Name of the player binary.
    pub program: String,
    /// Arguments in order; the stream URL is the last.
    pub args: Vec<String>,
}

/// Mathematical value of a [`PlayerCommand`].
pub struct PlayerCommandView {
    pub program: Seq<char>,
    pub args: Seq<Seq<char>>,
}

impl View for PlayerCommand {
    type V = PlayerCommandView;

    open spec fn view(&self) -> PlayerCommandView {
        PlayerCommandView { program: self.program@, args: self.args.deep_view() }
    }
}

/// The player invocation for `url` at `volume`: no video output, the start
/// volume, a volume ceiling of 200, dynamic audio normalization, then the
/// stream.
pub open spec fn command_for(url: Seq<char>, volume: u8) -> PlayerCommandView {
    PlayerCommandView {
        program: "mpv"@,
        args: seq![
            "--no-video"@,
            "--volume="@ + decimal(volume as nat),
            "--volume-max=200"@,
            "--af=lavfi=[dynaudnorm]"@,
            url,
        ],
    }
}

/// Builds the player invocation for `url` at `volume`.
pub fn player_command(url: String, volume: u8) -> (command: PlayerCommand)
    ensures
        command@ == command_for(url@, volume),
{
    let mut volume_flag = String::from_str("--volume=");
    let level = decimal_text(volume as u64);
    volume_flag.append(level.as_str());
    let mut args: Vec<String> = Vec::new();
    args.push(String::from_str("--no-video"));
    args.push(volume_flag);
    args.push(String::from_str("--volume-max=200"));
    args.push(String::from_str("--af=lavfi=[dynaudnorm]"));
    args.push(url);
    assert(args.deep_view() =~= command_for(url@, volume).args);
    PlayerCommand { program: String::from_str("mpv"), args }
}

/// What the caller has to carry out after a successful `play`.
#[derive(Debug)]
pub struct PlayPlan<H> {
    /// Handle of the stream that is being replaced. It must be terminated
    /// and reaped before `command` is spawned.
    pub superseded: Option<H>,
    /// The process to spawn.
    pub command: PlayerCommand,
}

/// Mathematical value of a [`PlayPlan`].
pub struct PlayPlanView<H> {
    pub superseded: Option<H>,
    pub command: PlayerCommandView,
}

impl<H> View for PlayPlan<H> {
    type V = PlayPlanView<H>;

    open spec fn view(&self) -> PlayPlanView<H> {
        PlayPlanView { superseded: self.superseded, command: self.command@ }
    }
}

/// The two states of the supervisor.
#[derive(Debug, Clone, Copy, PartialEq, Eq, Structural)]
pub enum PlayerState {
    /// No process is held.
    Idle,
    /// The handle of one running process is held.
    Playing,
}

/// State in which the slot content `held` puts the supervisor.
pub open spec fn state_of<H>(held: Option<H>) -> PlayerState {
    if held is Some {
        PlayerState::Playing
    } else {
        PlayerState::Idle
    }
}

/// Result of `play` together with the slot content it leaves.
pub struct PlayOutcome<H> {
    pub held: Option<H>,
    pub result: Result<PlayPlanView<H>, UrlError>,
}

/// What `play` does with slot content `held` when the URL screening gave
/// `checked`: a rejected URL changes nothing; an accepted one empties the
/// slot, hands out what it held and asks for the player to be spawned.
pub open spec fn play_step<H>(
    held: Option<H>,
    checked: Result<(), UrlError>,
    url: Seq<char>,
    volume: u8,
) -> PlayOutcome<H> {
    match checked {
        Err(error) => PlayOutcome { held, result: Err(error) },
        Ok(_) => PlayOutcome {
            held: None,
            result: Ok(PlayPlanView { superseded: held, command: command_for(url, volume) }),
        },
    }
}

/// Mathematical value of the result of `play`.
pub open spec fn plan_view<H>(result: Result<PlayPlan<H>, UrlError>) -> Result<
    PlayPlanView<H>,
    UrlError,
> {
    match result {
        Ok(plan) => Ok(plan@),
        Err(error) => Err(error),
    }
}

/// Owner of the single playback slot. `H` is the caller's handle on a
/// running player process.
#[derive(Debug)]
pub struct AudioManager<H> {
    process: Option<H>,
}

impl<H> View for AudioManager<H> {
    type V = Option<H>;

    /// The handle held, if any.
    closed spec fn view(&self) -> Option<H> {
        self.process
    }
}

impl<H> AudioManager<H> {
    /// An idle supervisor.
    pub fn new() -> (manager: Self)
        ensures
            manager@ is None,
    {
        AudioManager { process: None }
    }

    /// The state the supervisor is in.
    pub fn state(&self) -> (state: PlayerState)
        ensures
            state == state_of(self@),
    {
        if self.process.is_some() {
            PlayerState::Playing
        } else {
            PlayerState::Idle
        }
    }

    /// Asks for `url` to be played at `volume`, replacing whatever plays.
    ///
    /// The URL is screened first. If it is rejected, the error is returned
    /// and nothing changes. Otherwise the slot is emptied and the plan names
    /// the handle it held and the command to spawn.
    pub fn play(&mut self, url: String, volume: u8) -> (result: Result<PlayPlan<H>, UrlError>)
        ensures
            (PlayOutcome { held: final(self)@, result: plan_view(result) }) == play_step(
                old(self)@,
                url_check(parsed_url(url@)),
                url@,
                volume,
            ),
    {
        let parsed = parse_url(url.as_str());
        self.play_parsed(&parsed, url, volume)
    }

    /// [`AudioManager::play`] for a URL that the caller has parsed already:
    /// `parsed` holds the parts of `url`, or `None` if `url` did not parse.
    pub fn play_parsed(&mut self, parsed: &Option<UrlParts>, url: String, volume: u8) -> (result:
        Result<PlayPlan<H>, UrlError>)
        ensures
            (PlayOutcome { held: final(self)@, result: plan_view(result) }) == play_step(
                old(self)@,
                url_check(parsed.deep_view()),
                url@,
                volume,
            ),
    {
        match check_parts(parsed) {
            Err(error) => Err(error),
            Ok(_) => {
                let superseded = self.process.take();
                Ok(PlayPlan { superseded, command: player_command(url, volume) })
            },
        }
    }

    /// Records that the command of the last plan was spawned and runs as
    /// `handle`. Returns the handle that `handle` displaces, which the
    /// caller must terminate and reap; there is none if the protocol was
    /// followed.
    #[must_use]
    pub fn started(&mut self, handle: H) -> (displaced: Option<H>)
        ensures
            final(self)@ == Some(handle),
            displaced == old(self)@,
    {
        let displaced = self.process.take();
        self.process = Some(handle);
        displaced
    }

    /// Stops playback. Returns the handle that was held, which the caller
    /// must terminate and reap; when idle there is none and nothing changes.
    #[must_use]
    pub fn stop(&mut self) -> (stopped: Option<H>)
        ensures
            final(self)@ is None,
            stopped == old(self)@,
            old(self)@ is None ==> final(self)@ == old(self)@,
    {
        self.process.take()
    }

    /// Accepts a volume level for the running stream and does nothing with
    /// it: the volume is fixed when a stream starts, and no control channel
    /// to the running player exists.
    pub fn set_volume(&self, _level: u8) {
    }
}

impl<H> Default for AudioManager<H> {
    fn default() -> (manager: Self)
        ensures
            manager@ is None,
    {
        AudioManager::new()
    }
}

/// The supervisor's slot together with the player processes that are alive
/// and the command each was spawned with: the model against which the caller
/// protocol is stated.
#[verifier::reject_recursive_types(H)]
pub struct Supervision<H> {
    pub held: Option<H>,
    pub live: Map<H, PlayerCommandView>,
}

impl<H> Supervision<H> {
    /// Nothing held, nothing alive.
    pub open spec fn idle() -> Self {
        Supervision { held: None, live: Map::empty() }
    }

    /// The slot accounts for every live process: the process held is alive
    /// and no other is.
    pub open spec fn accounted(self) -> bool {
        self.live.dom() =~= match self.held {
            Some(handle) => set![handle],
            None => Set::empty(),
        }
    }

    /// The caller terminates and reaps `handle`, if there is one.
    pub open spec fn reaped(self, handle: Option<H>) -> Self {
        match handle {
            Some(handle) => Supervision { held: self.held, live: self.live.remove(handle) },
            None => self,
        }
    }

    /// Point of a `play` at which the superseded process has been reaped and
    /// the new one is not spawned yet; `self` where the URL is rejected.
    pub open spec fn play_cleared(
        self,
        checked: Result<(), UrlError>,
        url: Seq<char>,
        volume: u8,
    ) -> Self {
        match play_step(self.held, checked, url, volume).result {
            Err(_) => self,
            Ok(plan) => Supervision { held: None, live: self.live }.reaped(plan.superseded),
        }
    }

    /// A whole `play` under the caller protocol. `spawned` is the handle of
    /// the new process, or `None` where spawning failed.
    pub open spec fn play(
        self,
        checked: Result<(), UrlError>,
        url: Seq<char>,
        volume: u8,
        spawned: Option<H>,
    ) -> Self {
        match play_step(self.held, checked, url, volume).result {
            Err(_) => self,
            Ok(plan) => {
                let cleared = self.play_cleared(checked, url, volume);
                match spawned {
                    None => cleared,
                    Some(handle) => Supervision {
                        held: Some(handle),
                        live: cleared.live.insert(handle, plan.command),
                    }.reaped(cleared.held),
                }
            },
        }
    }

    /// A whole `stop` under the caller protocol.
    pub open spec fn stop(self) -> Self {
        Supervision { held: None, live: self.live }.reaped(self.held)
    }
}

/// At most one player process is alive at any time: if the slot accounts for
/// every live process, it still does after a whole `play`, whatever the URL
/// and whether or not the spawn succeeds, and after a whole `stop`; between
/// reaping the superseded process and spawning the new one none is alive;
/// and an accounted-for set of live processes has at most one member.
pub proof fn law_at_most_one_process<H>(
    before: Supervision<H>,
    checked: Result<(), UrlError>,
    url: Seq<char>,
    volume: u8,
    spawned: Option<H>,
)
    requires
        before.accounted(),
    ensures
        before.live.dom().finite(),
        before.live.dom().len() <= 1,
        before.play(checked, url, volume, spawned).accounted(),
        checked is Ok ==> before.play_cleared(checked, url, volume).live.dom() =~= Set::<
            H,
        >::empty(),
        before.stop().accounted(),
        before.stop().held is None,
{
}

/// Two accepted `play`s in succession, both spawned successfully: the second
/// hands out the first process for termination and spawns the command for
/// the second URL; afterwards the second process is held and is the only one
/// alive, playing the second URL. `first` and `second` are what parsing the
/// two URLs gave.
pub proof fn law_second_play_replaces_first<H>(
    first: Option<UrlPartsView>,
    first_url: Seq<char>,
    first_volume: u8,
    first_handle: H,
    second: Option<UrlPartsView>,
    second_url: Seq<char>,
    second_volume: u8,
    second_handle: H,
)
    requires
        url_check(first) is Ok,
        url_check(second) is Ok,
    ensures
        ({
            let playing_first = Supervision::<H>::idle().play(
                url_check(first),
                first_url,
                first_volume,
                Some(first_handle),
            );
            let step = play_step(playing_first.held, url_check(second), second_url, second_volume);
            let playing_second = playing_first.play(
                url_check(second),
                second_url,
                second_volume,
                Some(second_handle),
            );
            &&& playing_first.held == Some(first_handle)
            &&& playing_first.live =~= map![first_handle => command_for(first_url, first_volume)]
            &&& step.result == Ok::<PlayPlanView<H>, UrlError>(
                PlayPlanView {
                    superseded: Some(first_handle),
                    command: command_for(second_url, second_volume),
                },
            )
            &&& playing_second.held == Some(second_handle)
            &&& playing_second.live =~= map![
                second_handle => command_for(second_url, second_volume),
            ]
            &&& first_handle != second_handle ==> !playing_second.live.dom().contains(first_handle)
        }),
{
}

/// `stop` on an idle supervisor changes nothing: nothing is handed out for
/// termination and the supervisor is idle afterwards.
pub proof fn law_stop_when_idle_is_noop<H>(before: Supervision<H>)
    requires
        before.held is None,
    ensures
        before.stop() == before,
        state_of(before.stop().held) == PlayerState::Idle,
{
}

/// A URL that parses with a scheme other than `http` and `https` makes
/// `play` fail with the scheme error; the slot keeps what it held and no
/// process is spawned or terminated.
pub proof fn law_foreign_scheme_spawns_nothing<H>(
    before: Supervision<H>,
    parts: UrlPartsView,
    url: Seq<char>,
    volume: u8,
    spawned: Option<H>,
)
    requires
        !is_web_scheme(parts.scheme),
    ensures
        play_step(before.held, url_check(Some(parts)), url, volume) == (PlayOutcome {
            held: before.held,
            result: Err(UrlError::UnsupportedScheme),
        }),
        before.play(url_check(Some(parts)), url, volume, spawned) == before,
{
}

/// An `http` or `https` URL whose host is `localhost` or `127.0.0.1`, or
/// begins with `192.168.`, `10.` or `172.16.`, makes `play` fail with the
/// private-host error; the slot keeps what it held and no process is spawned
/// or terminated.
pub proof fn law_private_host_spawns_nothing<H>(
    before: Supervision<H>,
    parts: UrlPartsView,
    url: Seq<char>,
    volume: u8,
    spawned: Option<H>,
)
    requires
        is_web_scheme(parts.scheme),
        parts.host matches Some(host) && is_private_host(host),
    ensures
        play_step(before.held, url_check(Some(parts)), url, volume) == (PlayOutcome {
            held: before.held,
            result: Err(UrlError::PrivateHost),
        }),
        before.play(url_check(Some(parts)), url, volume, spawned) == before,
{
}

} // verus!
