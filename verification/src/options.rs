//! Options of a shell

use vstd::prelude::*;

verus! {

/// Config mode: what a shell does with the configuration file
#[derive(Clone, Copy, Debug, PartialEq, Eq, Hash, Structural)]
pub enum ConfigMode {
    /// Read-only mode
    Read,
    /// Use default config and write out
    WriteDefault,
}

/// Adapter power preference
#[derive(Clone, Copy, Debug, PartialEq, Eq, Hash, Structural)]
pub enum PowerPreference {
    /// Prefer an adapter that uses little power
    LowPower,
    /// Prefer the fastest adapter
    HighPerformance,
}

/// The graphics backends that a shell may use
#[derive(Clone, Copy, Debug, PartialEq, Eq, Hash, Structural)]
pub enum Backends {
    Vulkan,
    Gl,
    Metal,
    Dx11,
    Dx12,
    /// Any of Vulkan, Metal or DX12
    Primary,
    /// Any of GL or DX11
    Secondary,
}

/// The upper-case form of an ASCII letter; any other byte as it is.
pub open spec fn spec_upper(b: u8) -> u8 {
    if 0x61 <= b <= 0x7a {
        (b - 0x20) as u8
    } else {
        b
    }
}

/// Is `name`, letter for letter and without regard to case, the upper-case
/// word `word`?
pub open spec fn names(name: Seq<u8>, word: Seq<u8>) -> bool {
    name.len() == word.len() && forall|i: int|
        0 <= i < name.len() ==> spec_upper(#[trigger] name[i]) == word[i]
}

/// The word `READ`
pub open spec fn word_read() -> Seq<u8> {
    seq![0x52u8, 0x45u8, 0x41u8, 0x44u8]
}

/// The word `WRITEDEFAULT`
pub open spec fn word_write_default() -> Seq<u8> {
    seq![
        0x57u8,
        0x52u8,
        0x49u8,
        0x54u8,
        0x45u8,
        0x44u8,
        0x45u8,
        0x46u8,
        0x41u8,
        0x55u8,
        0x4cu8,
        0x54u8,
    ]
}

/// The word `DEFAULT`
pub open spec fn word_default() -> Seq<u8> {
    seq![0x44u8, 0x45u8, 0x46u8, 0x41u8, 0x55u8, 0x4cu8, 0x54u8]
}

/// The word `LOWPOWER`
pub open spec fn word_low_power() -> Seq<u8> {
    seq![0x4cu8, 0x4fu8, 0x57u8, 0x50u8, 0x4fu8, 0x57u8, 0x45u8, 0x52u8]
}

/// The word `HIGHPERFORMANCE`
pub open spec fn word_high_performance() -> Seq<u8> {
    seq![
        0x48u8,
        0x49u8,
        0x47u8,
        0x48u8,
        0x50u8,
        0x45u8,
        0x52u8,
        0x46u8,
        0x4fu8,
        0x52u8,
        0x4du8,
        0x41u8,
        0x4eu8,
        0x43u8,
        0x45u8,
    ]
}

/// The word `VULKAN`
pub open spec fn word_vulkan() -> Seq<u8> {
    seq![0x56u8, 0x55u8, 0x4cu8, 0x4bu8, 0x41u8, 0x4eu8]
}

/// The word `GL`
pub open spec fn word_gl() -> Seq<u8> {
    seq![0x47u8, 0x4cu8]
}

/// The word `METAL`
pub open spec fn word_metal() -> Seq<u8> {
    seq![0x4du8, 0x45u8, 0x54u8, 0x41u8, 0x4cu8]
}

/// The word `DX11`
pub open spec fn word_dx11() -> Seq<u8> {
    seq![0x44u8, 0x58u8, 0x31u8, 0x31u8]
}

/// The word `DX12`
pub open spec fn word_dx12() -> Seq<u8> {
    seq![0x44u8, 0x58u8, 0x31u8, 0x32u8]
}

/// The word `PRIMARY`
pub open spec fn word_primary() -> Seq<u8> {
    seq![0x50u8, 0x52u8, 0x49u8, 0x4du8, 0x41u8, 0x52u8, 0x59u8]
}

/// The word `SECONDARY`
pub open spec fn word_secondary() -> Seq<u8> {
    seq![0x53u8, 0x45u8, 0x43u8, 0x4fu8, 0x4eu8, 0x44u8, 0x41u8, 0x52u8, 0x59u8]
}

/// The upper-case form of an ASCII letter; any other byte as it is.
fn upper(b: u8) -> (u: u8)
    ensures
        u == spec_upper(b),
{
    if 0x61 <= b && b <= 0x7a {
        b - 0x20
    } else {
        b
    }
}

/// Is `name`, without regard to case, the upper-case word `word`?
fn names_word(name: &[u8], word: &[u8]) -> (r: bool)
    ensures
        r == names(name@, word@),
{
    if name.len() != word.len() {
        return false;
    }
    let mut i: usize = 0;
    while i < name.len()
        invariant
            0 <= i <= name@.len(),
            name@.len() == word@.len(),
            forall|j: int| 0 <= j < i ==> spec_upper(#[trigger] name@[j]) == word@[j],
        decreases name@.len() - i,
    {
        if upper(name[i]) != word[i] {
            return false;
        }
        i = i + 1;
    }
    true
}

impl ConfigMode {
    /// The mode that `name` names: `Read` or `WriteDefault`, in any case of
    /// letters.
    pub open spec fn spec_from_name(name: Seq<u8>) -> Option<ConfigMode> {
        if names(name, word_read()) {
            Some(ConfigMode::Read)
        } else if names(name, word_write_default()) {
            Some(ConfigMode::WriteDefault)
        } else {
            None
        }
    }

    /// The mode that `name` names, as the bytes of `Read` or `WriteDefault`
    /// in any case of letters; `None` for any other name.
    pub fn from_name(name: &[u8]) -> (mode: Option<ConfigMode>)
        ensures
            mode == ConfigMode::spec_from_name(name@),
    {
        let read: [u8; 4] = [0x52, 0x45, 0x41, 0x44];
        let write_default: [u8; 12] = [
            0x57,
            0x52,
            0x49,
            0x54,
            0x45,
            0x44,
            0x45,
            0x46,
            0x41,
            0x55,
            0x4c,
            0x54,
        ];
        proof {
            assert(read@ =~= word_read());
            assert(write_default@ =~= word_write_default());
        }
        if names_word(name, read.as_slice()) {
            Some(ConfigMode::Read)
        } else if names_word(name, write_default.as_slice()) {
            Some(ConfigMode::WriteDefault)
        } else {
            None
        }
    }
}

impl PowerPreference {
    /// The preference that `name` names: `Default` and `LowPower` for low
    /// power, `HighPerformance` for high performance, in any case of letters.
    pub open spec fn spec_from_name(name: Seq<u8>) -> Option<PowerPreference> {
        if names(name, word_default()) || names(name, word_low_power()) {
            Some(PowerPreference::LowPower)
        } else if names(name, word_high_performance()) {
            Some(PowerPreference::HighPerformance)
        } else {
            None
        }
    }

    /// The preference that `name` names, in any case of letters; `None` for
    /// any other name.
    pub fn from_name(name: &[u8]) -> (r: Option<PowerPreference>)
        ensures
            r == PowerPreference::spec_from_name(name@),
    {
        let default: [u8; 7] = [0x44, 0x45, 0x46, 0x41, 0x55, 0x4c, 0x54];
        let low_power: [u8; 8] = [0x4c, 0x4f, 0x57, 0x50, 0x4f, 0x57, 0x45, 0x52];
        let high_performance: [u8; 15] = [
            0x48,
            0x49,
            0x47,
            0x48,
            0x50,
            0x45,
            0x52,
            0x46,
            0x4f,
            0x52,
            0x4d,
            0x41,
            0x4e,
            0x43,
            0x45,
        ];
        proof {
            assert(default@ =~= word_default());
            assert(low_power@ =~= word_low_power());
            assert(high_performance@ =~= word_high_performance());
        }
        if names_word(name, default.as_slice()) || names_word(name, low_power.as_slice()) {
            Some(PowerPreference::LowPower)
        } else if names_word(name, high_performance.as_slice()) {
            Some(PowerPreference::HighPerformance)
        } else {
            None
        }
    }
}

impl Backends {
    /// The backends that `name` names, in any case of letters.
    pub open spec fn spec_from_name(name: Seq<u8>) -> Option<Backends> {
        if names(name, word_vulkan()) {
            Some(Backends::Vulkan)
        } else if names(name, word_gl()) {
            Some(Backends::Gl)
        } else if names(name, word_metal()) {
            Some(Backends::Metal)
        } else if names(name, word_dx11()) {
            Some(Backends::Dx11)
        } else if names(name, word_dx12()) {
            Some(Backends::Dx12)
        } else if names(name, word_primary()) {
            Some(Backends::Primary)
        } else if names(name, word_secondary()) {
            Some(Backends::Secondary)
        } else {
            None
        }
    }

    /// The backends that `name` names, in any case of letters: one of
    /// `Vulkan`, `GL`, `Metal`, `DX11`, `DX12`, `Primary` and `Secondary`;
    /// `None` for any other name.
    pub fn from_name(name: &[u8]) -> (r: Option<Backends>)
        ensures
            r == Backends::spec_from_name(name@),
    {
        let vulkan: [u8; 6] = [0x56, 0x55, 0x4c, 0x4b, 0x41, 0x4e];
        let gl: [u8; 2] = [0x47, 0x4c];
        let metal: [u8; 5] = [0x4d, 0x45, 0x54, 0x41, 0x4c];
        let dx11: [u8; 4] = [0x44, 0x58, 0x31, 0x31];
        let dx12: [u8; 4] = [0x44, 0x58, 0x31, 0x32];
        let primary: [u8; 7] = [0x50, 0x52, 0x49, 0x4d, 0x41, 0x52, 0x59];
        let secondary: [u8; 9] = [0x53, 0x45, 0x43, 0x4f, 0x4e, 0x44, 0x41, 0x52, 0x59];
        proof {
            assert(vulkan@ =~= word_vulkan());
            assert(gl@ =~= word_gl());
            assert(metal@ =~= word_metal());
            assert(dx11@ =~= word_dx11());
            assert(dx12@ =~= word_dx12());
            assert(primary@ =~= word_primary());
            assert(secondary@ =~= word_secondary());
        }
        if names_word(name, vulkan.as_slice()) {
            Some(Backends::Vulkan)
        } else if names_word(name, gl.as_slice()) {
            Some(Backends::Gl)
        } else if names_word(name, metal.as_slice()) {
            Some(Backends::Metal)
        } else if names_word(name, dx11.as_slice()) {
            Some(Backends::Dx11)
        } else if names_word(name, dx12.as_slice()) {
            Some(Backends::Dx12)
        } else if names_word(name, primary.as_slice()) {
            Some(Backends::Primary)
        } else if names_word(name, secondary.as_slice()) {
            Some(Backends::Secondary)
        } else {
            None
        }
    }
}

/// Shell options
pub struct Options {
    /// Config file path. Default: empty.
    pub config_path: String,
    /// Config mode. Default: Read.
    pub config_mode: ConfigMode,
    /// Adapter power preference. Default value: low power.
    pub power_preference: PowerPreference,
    /// Adapter backend. Default value: PRIMARY (Vulkan/Metal/DX12).
    pub backends: Backends,
}

/// The content of [`Options`]
pub struct OptionsView {
    /// Config file path
    pub config_path: Seq<char>,
    /// Config mode
    pub config_mode: ConfigMode,
    /// Adapter power preference
    pub power_preference: PowerPreference,
    /// Adapter backend
    pub backends: Backends,
}

impl View for Options {
    type V = OptionsView;

    open spec fn view(&self) -> OptionsView {
        OptionsView {
            config_path: self.config_path@,
            config_mode: self.config_mode,
            power_preference: self.power_preference,
            backends: self.backends,
        }
    }
}

impl OptionsView {
    /// The options of a shell for which nothing is set.
    pub open spec fn initial() -> OptionsView {
        OptionsView {
            config_path: Seq::empty(),
            config_mode: ConfigMode::Read,
            power_preference: PowerPreference::LowPower,
            backends: Backends::Primary,
        }
    }

    /// The options for the given settings: each is `None` where it is not
    /// set. A setting that is not set, and a name that names nothing, leave
    /// the default.
    pub open spec fn from_values(
        config_path: Option<Seq<char>>,
        config_mode: Option<Seq<u8>>,
        power_preference: Option<Seq<u8>>,
        backends: Option<Seq<u8>>,
    ) -> OptionsView {
        let o = OptionsView::initial();
        OptionsView {
            config_path: match config_path {
                Some(path) => path,
                None => o.config_path,
            },
            config_mode: match config_mode {
                Some(name) => match ConfigMode::spec_from_name(name) {
                    Some(mode) => mode,
                    None => o.config_mode,
                },
                None => o.config_mode,
            },
            power_preference: match power_preference {
                Some(name) => match PowerPreference::spec_from_name(name) {
                    Some(preference) => preference,
                    None => o.power_preference,
                },
                None => o.power_preference,
            },
            backends: match backends {
                Some(name) => match Backends::spec_from_name(name) {
                    Some(backends) => backends,
                    None => o.backends,
                },
                None => o.backends,
            },
        }
    }
}

/// The bytes of a name, if there is one.
pub open spec fn name_of(name: Option<&[u8]>) -> Option<Seq<u8>> {
    match name {
        Some(name) => Some(name@),
        None => None,
    }
}

impl Options {
    /// The options of a shell for which nothing is set.
    pub fn new() -> (options: Options)
        ensures
            options@ == OptionsView::initial(),
    {
        Options {
            config_path: String::new(),
            config_mode: ConfigMode::Read,
            power_preference: PowerPreference::LowPower,
            backends: Backends::Primary,
        }
    }

    /// The options for the given settings: the path of the config file, and
    /// the names of the config mode, the power preference and the backends,
    /// each `None` where it is not set. A name is read in any case of
    /// letters; one that names nothing is ignored.
    pub fn from_values(
        config_path: Option<String>,
        config_mode: Option<&[u8]>,
        power_preference: Option<&[u8]>,
        backends: Option<&[u8]>,
    ) -> (options: Options)
        ensures
            options@ == OptionsView::from_values(
                crate::toolkit::text_of(config_path),
                name_of(config_mode),
                name_of(power_preference),
                name_of(backends),
            ),
    {
        let mut options = Options::new();
        if let Some(path) = config_path {
            options.config_path = path;
        }
        if let Some(name) = config_mode {
            if let Some(mode) = ConfigMode::from_name(name) {
                options.config_mode = mode;
            }
        }
        if let Some(name) = power_preference {
            if let Some(preference) = PowerPreference::from_name(name) {
                options.power_preference = preference;
            }
        }
        if let Some(name) = backends {
            if let Some(backends) = Backends::from_name(name) {
                options.backends = backends;
            }
        }
        options
    }
}

impl Default for Options {
    fn default() -> (options: Options)
        ensures
            options@ == OptionsView::initial(),
    {
        Options::new()
    }
}

} // verus!
