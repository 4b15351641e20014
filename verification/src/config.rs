//! Startup configuration, as plain values: device names, button
//! assignments, sounds, the admin tag set and the user-mode selection.
//! Reading and parsing the configuration file is an outside concern; the
//! surrounding program hands the parsed values over in this form.

use vstd::prelude::*;
use crate::model::{Button, Tag, UserMode};

verus! {

/// Connection settings for the remote service.
pub struct ApiConfig {
    pub base_url: String,
    pub client_token: String,
    pub tls_verify: bool,
    pub timeout_in_seconds: u64,
}

/// The party-specific assignments the session coordinator dispatches on.
pub struct PartyConfig {
    pub party_id: String,
    pub buttons_to_whereabouts: Vec<(Button, String)>,
    pub whereabouts_sounds: Vec<(String, Vec<String>)>,
}

/// The configured administrative tag values, if any.
pub struct AdminConfig {
    pub tags: Option<Vec<String>>,
}

/// The configured fixed user, if any.
pub struct SingleUserConfig {
    pub user_id: Option<String>,
}

/// The whole startup configuration.
pub struct Config {
    pub reader_input_device: Option<String>,
    pub button_input_device: String,
    pub buttons_to_key_code_names: Vec<(Button, String)>,
    pub sounds_path: String,
    pub api: ApiConfig,
    pub party: PartyConfig,
    pub admin: Option<AdminConfig>,
    pub single_user: Option<SingleUserConfig>,
}

impl Config {
    /// The configured admin tag values; empty when the admin section or
    /// its tag list is absent.
    pub open spec fn spec_admin_tag_values(self) -> Seq<String> {
        match self.admin {
            Some(admin_config) => match admin_config.tags {
                Some(tags) => tags@,
                None => Seq::empty(),
            },
            None => Seq::empty(),
        }
    }

    /// The configured fixed user id, if a single-user section names one.
    pub open spec fn spec_single_user_id(self) -> Option<String> {
        match self.single_user {
            Some(single_user_config) => single_user_config.user_id,
            None => None,
        }
    }

    /// The set of tag values treated as administrative credentials, one
    /// tag per configured value, in configuration order.
    pub fn get_admin_tags(&self) -> (r: Vec<Tag>)
        ensures
            r@.len() == self.spec_admin_tag_values().len(),
            forall|i: int|
                0 <= i < r@.len() ==> (#[trigger] r@[i]).value == self.spec_admin_tag_values()[i],
    {
        let mut tags: Vec<Tag> = Vec::new();
        match &self.admin {
            Some(admin_config) => match &admin_config.tags {
                Some(values) => {
                    let mut i: usize = 0;
                    while i < values.len()
                        invariant
                            0 <= i <= values@.len(),
                            tags@.len() == i,
                            forall|j: int|
                                0 <= j < i ==> (#[trigger] tags@[j]).value == values@[j],
                        decreases values@.len() - i,
                    {
                        tags.push(Tag { value: values[i].clone() });
                        i = i + 1;
                    }
                },
                None => {},
            },
            None => {},
        }
        tags
    }

    /// The user mode the configuration selects: a configured fixed user id
    /// means single-user mode, anything else multi-user mode.
    pub fn get_user_mode(&self) -> (r: UserMode)
        ensures
            match self.spec_single_user_id() {
                Some(id) => r == UserMode::SingleUser(id),
                None => r is MultiUser,
            },
    {
        match &self.single_user {
            Some(single_user_config) => match &single_user_config.user_id {
                Some(id) => UserMode::SingleUser(id.clone()),
                None => UserMode::MultiUser,
            },
            None => UserMode::MultiUser,
        }
    }
}

} // verus!
