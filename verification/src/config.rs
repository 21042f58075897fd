//! Where the settings are kept, and how a settings file written by an older
//! version is mended before it is read. Reading and writing the file is the
//! host's part.

use vstd::prelude::*;
use vstd::string::StringSliceAdditionalSpecFns;
use crate::text::{replace_text, replaced};

verus! {

/// The idle timeout, in minutes, of a settings file that names none.
pub fn default_idle_timeout() -> (minutes: i32)
    ensures
        minutes == 2,
{
    2
}

/// What a configuration holds. Paths are the bytes of a Unix path.
pub struct ConfigView {
    /// The directory of the settings file, where settings are kept on disk
    /// and the home directory is known.
    pub config_dir: Option<Seq<u8>>,
    /// The settings file, under the same conditions.
    pub config_file: Option<Seq<u8>>,
    /// Whether settings are kept on disk at all.
    pub use_persistent: bool,
}

/// Where settings are kept: on disk under the home directory, or in memory
/// only.
pub struct Config {
    config_dir: Option<Vec<u8>>,
    config_file: Option<Vec<u8>>,
    use_persistent: bool,
}

/// The bytes of an optional path.
pub open spec fn path_bytes(path: Option<Vec<u8>>) -> Option<Seq<u8>> {
    match path {
        Some(bytes) => Some(bytes@),
        None => None,
    }
}

impl View for Config {
    type V = ConfigView;

    closed spec fn view(&self) -> ConfigView {
        ConfigView {
            config_dir: path_bytes(self.config_dir),
            config_file: path_bytes(self.config_file),
            use_persistent: self.use_persistent,
        }
    }
}

/// The path of `part` under `base`: the two are set side by side, with a
/// slash between them unless `base` is empty or ends in one. `part` is a
/// relative path that is not empty.
pub open spec fn path_join(base: Seq<u8>, part: Seq<u8>) -> Seq<u8> {
    if base.len() > 0 && base.last() != 0x2f {
        base + seq![0x2fu8] + part
    } else {
        base + part
    }
}

/// The directory of the settings file for a home directory:
/// `.config/commodoro` under it.
pub open spec fn config_dir_for(home: Seq<u8>) -> Seq<u8> {
    path_join(path_join(home, ".config".spec_bytes()), "commodoro".spec_bytes())
}

/// The settings file for a home directory: `config.json` in the directory
/// of [`config_dir_for`].
pub open spec fn config_file_for(home: Seq<u8>) -> Seq<u8> {
    path_join(config_dir_for(home), "config.json".spec_bytes())
}

/// The path of `part` under `base`.
fn join_path(base: &Vec<u8>, part: &str) -> (joined: Vec<u8>)
    ensures
        joined@ == path_join(base@, part.spec_bytes()),
{
    let mut joined: Vec<u8> = Vec::new();
    let mut i: usize = 0;
    while i < base.len()
        invariant
            i <= base.len(),
            joined@ == base@.subrange(0, i as int),
        decreases base.len() - i,
    {
        joined.push(base[i]);
        assert(joined@ =~= base@.subrange(0, i + 1));
        i = i + 1;
    }
    assert(joined@ =~= base@);
    if base.len() > 0 && base[base.len() - 1] != 0x2f {
        joined.push(0x2f);
    }
    let ghost prefix = joined@;
    let bytes = part.as_bytes();
    let mut j: usize = 0;
    while j < bytes.len()
        invariant
            j <= bytes.len(),
            bytes@ == part.spec_bytes(),
            joined@ == prefix + bytes@.subrange(0, j as int),
        decreases bytes.len() - j,
    {
        joined.push(bytes[j]);
        assert(joined@ =~= prefix + bytes@.subrange(0, j + 1));
        j = j + 1;
    }
    assert(bytes@.subrange(0, bytes@.len() as int) =~= bytes@);
    joined
}

/// A configuration. Settings are kept on disk where `use_persistent` is not
/// zero; the paths are then set if the home directory is known. `home` is
/// the home directory as the environment gives it, if it gives one.
pub fn config_new(use_persistent: i32, home: Option<Vec<u8>>) -> (config: Config)
    ensures
        config@.use_persistent == (use_persistent != 0),
        config@.config_dir == if use_persistent != 0 && home is Some {
            Some(config_dir_for(home->0@))
        } else {
            None
        },
        config@.config_file == if use_persistent != 0 && home is Some {
            Some(config_file_for(home->0@))
        } else {
            None
        },
{
    let persistent = use_persistent != 0;
    if persistent {
        match home {
            Some(home_dir) => {
                let config_base = join_path(&home_dir, ".config");
                let config_dir = join_path(&config_base, "commodoro");
                let config_file = join_path(&config_dir, "config.json");
                Config {
                    config_dir: Some(config_dir),
                    config_file: Some(config_file),
                    use_persistent: persistent,
                }
            },
            None => Config { config_dir: None, config_file: None, use_persistent: persistent },
        }
    } else {
        Config { config_dir: None, config_file: None, use_persistent: persistent }
    }
}

impl Config {
    /// Whether settings are kept on disk.
    pub fn is_persistent(&self) -> (persistent: bool)
        ensures
            persistent == self@.use_persistent,
    {
        self.use_persistent
    }

    /// The settings file, if there is one.
    pub fn config_file(&self) -> (path: Option<&Vec<u8>>)
        ensures
            match path {
                Some(bytes) => self@.config_file == Some(bytes@),
                None => self@.config_file is None,
            },
    {
        match &self.config_file {
            Some(bytes) => Some(bytes),
            None => None,
        }
    }
}

/// The directory of the settings file, if there is one.
pub fn config_get_config_dir(config: &Config) -> (path: Option<&Vec<u8>>)
    ensures
        match path {
            Some(bytes) => config@.config_dir == Some(bytes@),
            None => config@.config_dir is None,
        },
{
    match &config.config_dir {
        Some(bytes) => Some(bytes),
        None => None,
    }
}

/// The text of a settings file with decimal commas made into points. Older
/// versions wrote a fraction below one with the decimal comma of the user's
/// language, as in `"sound_volume": 0,7`. Every `": 0,` in the text becomes
/// `": 0.`.
pub open spec fn with_decimal_points(contents: Seq<char>) -> Seq<char> {
    replaced(contents, "\": 0,"@, "\": 0."@)
}

/// The text of a settings file with decimal commas made into points; see
/// [`with_decimal_points`].
pub fn fix_decimal_commas(contents: &str) -> (fixed: String)
    ensures
        fixed@ == with_decimal_points(contents@),
{
    proof {
        reveal_strlit("\": 0,");
    }
    replace_text(contents, "\": 0,", "\": 0.")
}

} // verus!
