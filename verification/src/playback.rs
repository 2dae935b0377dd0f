use vstd::prelude::*;

verus! {

/// What the audio side is told to do when the play/stop button is pressed.
#[derive(Clone, Copy, Debug, PartialEq, Eq)]
pub enum TransportCommand {
    /// Open the output and start playing the current waveform.
    Start,
    /// Stop playback.
    Stop,
}

/// The play/stop state of the application. While it is playing, the button
/// reads "Stop" and the audio follows the editor's waveform every frame.
pub struct Transport {
    playing: bool,
}

/// The state after pressing the button in state `playing`, and the command sent.
pub open spec fn press_outcome(playing: bool) -> (bool, TransportCommand) {
    if playing {
        (false, TransportCommand::Stop)
    } else {
        (true, TransportCommand::Start)
    }
}

impl Transport {
    /// Whether audio is playing.
    pub closed spec fn spec_playing(&self) -> bool {
        self.playing
    }

    /// A stopped transport.
    pub fn new() -> (t: Self)
        ensures
            !t.spec_playing(),
    {
        Transport { playing: false }
    }

    /// Whether audio is playing (and so whether the editor's waveform is
    /// streamed to the audio each frame).
    pub fn is_playing(&self) -> (r: bool)
        ensures
            r == self.spec_playing(),
    {
        self.playing
    }

    /// Press the play/stop button: a playing transport stops, a stopped one
    /// starts.
    pub fn press(&mut self) -> (c: TransportCommand)
        ensures
            (final(self).spec_playing(), c) == press_outcome(old(self).spec_playing()),
    {
        if self.playing {
            self.playing = false;
            TransportCommand::Stop
        } else {
            self.playing = true;
            TransportCommand::Start
        }
    }
}

/// Pressing the button while playing stops playback and sends `Stop`;
/// pressing it while stopped starts playback and sends `Start`.
pub proof fn lemma_press_toggles(playing: bool)
    ensures
        press_outcome(playing).0 == !playing,
        playing ==> press_outcome(playing).1 == TransportCommand::Stop,
        !playing ==> press_outcome(playing).1 == TransportCommand::Start,
{
}

/// Pressing the button twice returns to the state one started from, and the
/// two presses send opposite commands.
pub proof fn lemma_press_twice_restores(playing: bool)
    ensures
        press_outcome(press_outcome(playing).0).0 == playing,
        press_outcome(press_outcome(playing).0).1 != press_outcome(playing).1,
{
}

} // verus!
