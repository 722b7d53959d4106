//! The command line's settings, and what follows from them.

use vstd::prelude::*;

verus! {

/// Speech speed.
#[derive(Clone, Copy, Debug, PartialEq, Eq, Structural)]
pub enum Speed {
    Slow,
    Normal,
    Fast,
}

impl Speed {
    /// How fast the speed is: slow, normal and fast in increasing order.
    pub open spec fn pace(self) -> int {
        match self {
            Speed::Slow => 0,
            Speed::Normal => 1,
            Speed::Fast => 2,
        }
    }

    /// The length scale handed to the engine, in hundredths: larger means
    /// slower speech.
    pub open spec fn scale(self) -> int {
        match self {
            Speed::Slow => 120,
            Speed::Normal => 100,
            Speed::Fast => 80,
        }
    }

    /// The length scale in hundredths (slow 1.20, normal 1.00, fast 0.80).
    pub fn length_scale_hundredths(&self) -> (r: u32)
        ensures
            r == self.scale(),
    {
        match self {
            Speed::Slow => 120,
            Speed::Normal => 100,
            Speed::Fast => 80,
        }
    }

    /// The length scale written with two decimals.
    pub fn length_scale_text(&self) -> (r: &'static str)
        ensures
            r@ == scale_text(self.scale()),
    {
        match self {
            Speed::Slow => "1.20",
            Speed::Normal => "1.00",
            Speed::Fast => "0.80",
        }
    }

    /// The speed's name as the command line spells it.
    pub fn name(&self) -> (r: &'static str)
        ensures
            r@ == match self {
                Speed::Slow => "slow"@,
                Speed::Normal => "normal"@,
                Speed::Fast => "fast"@,
            },
    {
        match self {
            Speed::Slow => "slow",
            Speed::Normal => "normal",
            Speed::Fast => "fast",
        }
    }
}

/// A length scale in hundredths written with two decimals.
pub open spec fn scale_text(hundredths: int) -> Seq<char> {
    if hundredths == 120 {
        "1.20"@
    } else if hundredths == 100 {
        "1.00"@
    } else {
        "0.80"@
    }
}

/// A faster speed never has a larger length scale; fast is below 1.00, slow
/// above it, and normal exactly 1.00.
pub proof fn lemma_scale_monotonic(a: Speed, b: Speed)
    ensures
        a.pace() <= b.pace() ==> a.scale() >= b.scale(),
        a.pace() < b.pace() ==> a.scale() > b.scale(),
        Speed::Fast.scale() < 100 && Speed::Normal.scale() == 100 && Speed::Slow.scale() > 100,
{
}

impl Default for Speed {
    fn default() -> (r: Self)
        ensures
            r == Speed::Normal,
    {
        Speed::Normal
    }
}

/// The parsed command line.
#[derive(Clone, Debug)]
pub struct Cli {
    /// Text to speak.
    pub text: Option<String>,
    /// Voice to use.
    pub voice: String,
    /// Speech speed.
    pub speed: Speed,
    /// Fast mode, a shortcut for the fast speed.
    pub fast: bool,
    /// Input file (.md, .markdown or .txt).
    pub input: Option<String>,
    /// Output WAV file; the audio is played when there is none.
    pub output: Option<String>,
    /// Print nothing but errors.
    pub quiet: bool,
    /// List the installed voices.
    pub list: bool,
    /// What to download: a voice id, "list", "all" or numbers like "1,3,5".
    pub download: Option<String>,
}

/// What a run of the tool does.
#[derive(Clone, Debug, PartialEq, Eq)]
pub enum Mode {
    /// Download voices by the given specification.
    Download(String),
    /// List the installed voices.
    ListInstalled,
    /// Speak (or save) the text.
    Speak,
}

impl Cli {
    /// The speed to use: the fast flag overrides the speed setting.
    pub fn effective_speed(&self) -> (r: Speed)
        ensures
            r == (if self.fast { Speed::Fast } else { self.speed }),
    {
        if self.fast {
            Speed::Fast
        } else {
            self.speed
        }
    }

    /// What to do: download if asked, else list if asked, else speak.
    pub fn mode(&self) -> (r: Mode)
        ensures
            r.requested_by(self),
    {
        match &self.download {
            Some(spec) => Mode::Download(spec.clone()),
            None => if self.list {
                Mode::ListInstalled
            } else {
                Mode::Speak
            },
        }
    }
}

impl Mode {
    /// The mode that `cli` asks for.
    pub open spec fn requested_by(self, cli: &Cli) -> bool {
        match cli.download {
            Some(spec) => self matches Mode::Download(s) && s@ == spec@,
            None => if cli.list {
                self == Mode::ListInstalled
            } else {
                self == Mode::Speak
            },
        }
    }
}

} // verus!
