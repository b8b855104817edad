//! The configuration of the tool: the profiles, the address of each, and the
//! active one.

use vstd::prelude::*;
use vstd::string::*;
use crate::error::{ErrorModel, MilieuError};
use crate::keyed::{has_key, key_pos, key_pos_from, put, Keyed};
use crate::repo::{join_path, joined};
use crate::text::{chars_of, str_eq, trim, trimmed};

verus! {

/// The address of the service where a profile names none.
pub fn default_base_url() -> (out: &'static str)
    ensures
        out@ == "https://milieu.sh"@,
{
    "https://milieu.sh"
}

/// How many versions of a file the history shows where the configuration does
/// not say.
pub fn default_history_limit() -> (out: u32)
    ensures
        out == 12,
{
    12
}

/// What is configured for one profile.
#[derive(Debug)]
pub struct Profile {
    pub base_url: String,
}

impl Clone for Profile {
    fn clone(&self) -> (out: Self)
        ensures
            out.base_url@ == self.base_url@,
    {
        Profile { base_url: self.base_url.clone() }
    }
}

/// The configuration: the profiles by name, the active one, and the length of
/// the history.
#[derive(Debug)]
pub struct Config {
    pub active_profile: String,
    pub profiles: Vec<(String, Profile)>,
    pub history_limit: u32,
}

/// A profile with its name, as plain values.
pub struct ProfileModel {
    pub name: Seq<char>,
    pub base_url: Seq<char>,
}

impl Keyed for ProfileModel {
    open spec fn key(self) -> Seq<char> {
        self.name
    }
}

/// The models of a run of named profiles.
pub open spec fn profiles_model(profiles: Seq<(String, Profile)>) -> Seq<ProfileModel> {
    Seq::new(
        profiles.len(),
        |i: int| ProfileModel { name: profiles[i].0@, base_url: profiles[i].1.base_url@ },
    )
}

/// A configuration as plain values.
pub struct ConfigModel {
    pub active_profile: Seq<char>,
    pub profiles: Seq<ProfileModel>,
    pub history_limit: u32,
}

impl View for Config {
    type V = ConfigModel;

    open spec fn view(&self) -> ConfigModel {
        ConfigModel {
            active_profile: self.active_profile@,
            profiles: profiles_model(self.profiles@),
            history_limit: self.history_limit,
        }
    }
}

/// The address that serves a profile: the one configured for it, else the one
/// from the environment unless that is blank, else the default. An empty profile
/// name stands for the active profile.
pub open spec fn base_url_of(config: ConfigModel, profile: Seq<char>, env: Option<Seq<char>>) -> Seq<
    char,
> {
    let name = if profile.len() == 0 {
        config.active_profile
    } else {
        profile
    };
    let at = key_pos(config.profiles, name);
    if at < config.profiles.len() {
        config.profiles[at].base_url
    } else {
        match env {
            Some(value) if trimmed(value).len() > 0 => value,
            _ => "https://milieu.sh"@,
        }
    }
}

fn profile_position(profiles: &Vec<(String, Profile)>, name: &str) -> (at: usize)
    ensures
        at == key_pos(profiles_model(profiles@), name@),
        at <= profiles.len(),
{
    let mut i: usize = 0;
    while i < profiles.len()
        invariant
            i <= profiles.len(),
            key_pos_from(profiles_model(profiles@), name@, 0) == key_pos_from(
                profiles_model(profiles@),
                name@,
                i as int,
            ),
        decreases profiles.len() - i,
    {
        assert(profiles_model(profiles@)[i as int].name == profiles@[i as int].0@);
        if str_eq(profiles[i].0.as_str(), name) {
            return i;
        }
        i += 1;
    }
    i
}

impl Default for Config {
    fn default() -> (out: Self)
        ensures
            out@ == (ConfigModel {
                active_profile: "default"@,
                profiles: seq![
                    ProfileModel { name: "default"@, base_url: "https://milieu.sh"@ },
                ],
                history_limit: 12,
            }),
    {
        let mut profiles: Vec<(String, Profile)> = Vec::new();
        profiles.push(
            (String::from_str("default"), Profile { base_url: String::from_str(default_base_url()) }),
        );
        let out = Config {
            active_profile: String::from_str("default"),
            profiles,
            history_limit: default_history_limit(),
        };
        assert(out@.profiles =~= seq![
            ProfileModel { name: "default"@, base_url: "https://milieu.sh"@ },
        ]);
        out
    }
}

impl Config {
    /// The address that serves a profile; `env_base_url` is what the environment
    /// names as the address, if anything.
    pub fn base_url_for(&self, profile: &str, env_base_url: Option<&str>) -> (out: String)
        ensures
            out@ == base_url_of(self@, profile@, crate::keys::opt_text(env_base_url)),
    {
        let chars = chars_of(profile);
        let name = if chars.len() == 0 {
            self.active_profile.as_str()
        } else {
            profile
        };
        let at = profile_position(&self.profiles, name);
        if at < self.profiles.len() {
            assert(profiles_model(self.profiles@)[at as int].base_url
                == self.profiles@[at as int].1.base_url@);
            return self.profiles[at].1.base_url.clone();
        }
        match env_base_url {
            Some(value) => {
                let rest = chars_of(trim(value));
                if rest.len() > 0 {
                    return String::from_str(value);
                }
            },
            None => {},
        }
        String::from_str(default_base_url())
    }

    /// Sets the address of a profile, whether it was configured before or not.
    pub fn set_base_url(&mut self, profile: &str, base_url: String)
        ensures
            final(self)@ == (ConfigModel {
                profiles: put(
                    old(self)@.profiles,
                    ProfileModel { name: profile@, base_url: base_url@ },
                ),
                ..old(self)@
            }),
    {
        let at = profile_position(&self.profiles, profile);
        let entry = (String::from_str(profile), Profile { base_url });
        if at < self.profiles.len() {
            self.profiles[at] = entry;
        } else {
            self.profiles.push(entry);
        }
        assert(self@.profiles =~= put(
            old(self)@.profiles,
            ProfileModel { name: profile@, base_url: base_url@ },
        ));
    }

    /// Makes sure that a configuration just read has a profile to work with:
    /// without any profile it gets `default`, and an active profile that is not
    /// configured gets the default address. Says whether anything changed and
    /// the configuration is to be saved.
    pub fn ensure_profiles(&mut self) -> (changed: bool)
        ensures
            final(self)@ == (if old(self)@.profiles.len() == 0 {
                ConfigModel {
                    profiles: seq![
                        ProfileModel { name: "default"@, base_url: "https://milieu.sh"@ },
                    ],
                    ..old(self)@
                }
            } else if !has_key(old(self)@.profiles, old(self)@.active_profile) {
                ConfigModel {
                    profiles: old(self)@.profiles.push(
                        ProfileModel {
                            name: old(self)@.active_profile,
                            base_url: "https://milieu.sh"@,
                        },
                    ),
                    ..old(self)@
                }
            } else {
                old(self)@
            }),
            changed == (old(self)@.profiles.len() == 0 || !has_key(
                old(self)@.profiles,
                old(self)@.active_profile,
            )),
    {
        if self.profiles.len() == 0 {
            self.profiles.push(
                (
                    String::from_str("default"),
                    Profile { base_url: String::from_str(default_base_url()) },
                ),
            );
            assert(self@.profiles =~= seq![
                ProfileModel { name: "default"@, base_url: "https://milieu.sh"@ },
            ]);
            return true;
        }
        let at = profile_position(&self.profiles, self.active_profile.as_str());
        if at >= self.profiles.len() {
            let name = self.active_profile.clone();
            self.profiles.push((name, Profile { base_url: String::from_str(default_base_url()) }));
            assert(self@.profiles =~= old(self)@.profiles.push(
                ProfileModel { name: old(self)@.active_profile, base_url: "https://milieu.sh"@ },
            ));
            return true;
        }
        assert(self@.profiles =~= old(self)@.profiles);
        false
    }
}

/// Where the configuration lives: under `XDG_CONFIG_HOME` if that is set, else
/// under `.config` in `HOME`.
pub open spec fn config_dir_of(xdg: Option<Seq<char>>, home: Option<Seq<char>>) -> Option<Seq<char>> {
    match xdg {
        Some(dir) => Some(joined(dir, "milieu"@)),
        None => match home {
            Some(dir) => Some(joined(joined(dir, ".config"@), "milieu"@)),
            None => None,
        },
    }
}

/// The directory of the configuration, from the values of `XDG_CONFIG_HOME` and
/// `HOME`; `ConfigMissing` where neither is set.
pub fn config_dir(xdg_config_home: Option<&str>, home: Option<&str>) -> (out: Result<
    String,
    MilieuError,
>)
    ensures
        match config_dir_of(crate::keys::opt_text(xdg_config_home), crate::keys::opt_text(home)) {
            Some(dir) => out matches Ok(d) && d@ == dir,
            None => out matches Err(e) && e@ == ErrorModel::ConfigMissing,
        },
{
    match xdg_config_home {
        Some(dir) => Ok(join_path(dir, "milieu")),
        None => match home {
            Some(dir) => {
                let base = join_path(dir, ".config");
                Ok(join_path(base.as_str(), "milieu"))
            },
            None => Err(MilieuError::ConfigMissing),
        },
    }
}

/// The file of the configuration, from the values of `XDG_CONFIG_HOME` and
/// `HOME`; `ConfigMissing` where neither is set.
pub fn config_path(xdg_config_home: Option<&str>, home: Option<&str>) -> (out: Result<
    String,
    MilieuError,
>)
    ensures
        match config_dir_of(crate::keys::opt_text(xdg_config_home), crate::keys::opt_text(home)) {
            Some(dir) => out matches Ok(p) && p@ == joined(dir, "config.toml"@),
            None => out matches Err(e) && e@ == ErrorModel::ConfigMissing,
        },
{
    match config_dir(xdg_config_home, home) {
        Ok(dir) => Ok(join_path(dir.as_str(), "config.toml")),
        Err(e) => Err(e),
    }
}

/// The address that serves a repository: the override of its manifest, if it
/// has one, else the address of the profile.
pub fn effective_base_url(profile_url: String, manifest: &crate::manifest::Manifest) -> (out: String)
    ensures
        out@ == (match manifest@.remote {
            Some(Some(url)) => url,
            _ => profile_url@,
        }),
{
    match &manifest.remote {
        Some(remote) => match &remote.base_url {
            Some(url) => url.clone(),
            None => profile_url,
        },
        None => profile_url,
    }
}

} // verus!
