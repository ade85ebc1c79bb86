//! The statistics payload: facts about the host, as its commands and files
//! gave them, and the health of its applications.
//!
//! No command is run here. The caller hands over what each command printed
//! and what each file held; this module cleans the texts and assembles the
//! payload. A fact that could not be had is left out of the payload. A
//! failure of the conductor is not: no payload is made without the health
//! map, the running applications and the usage counts.

use crate::app_health::HealthMap;
use crate::category::RunningApps;
use crate::error::Error;
use crate::usage::UsageCounts;
use crate::text::{str_eq, strip, stripped, text_of, Strip};
use vstd::prelude::*;

verus! {

/// What one command left behind: whether it exited with success, and what
/// it printed.
#[derive(Debug)]
pub struct CaptureData {
    pub success: bool,
    pub stdout: String,
    pub stderr: String,
}

/// The outcome of running one command: what it left behind, or `None` where
/// it could not be run.
pub type ExecResult = Option<CaptureData>;

/// The text that a command's output stands for: trimmed of white space,
/// then of quotation marks at both ends.
pub open spec fn unquoted(stdout: Seq<char>) -> Seq<char> {
    stripped(stripped(stdout, Strip::WhiteSpace), Strip::Char('"'))
}

/// The fact that a command gave: its cleaned output where it ran and exited
/// with success, and nothing otherwise.
pub open spec fn fact_of(res: ExecResult) -> Option<Seq<char>> {
    match res {
        Some(data) => if data.success {
            Some(unquoted(data.stdout@))
        } else {
            None
        },
        None => None,
    }
}

/// The output of a command that ran with success, without the white space
/// and the quotation marks around it. A command that failed or could not be
/// run gives `None`.
pub fn wrap(res: ExecResult) -> (out: Option<String>)
    ensures
        text_of(out) == fact_of(res),
{
    match res {
        Some(data) => {
            if data.success {
                let trimmed = strip(data.stdout.as_str(), Strip::WhiteSpace);
                Some(strip(trimmed.as_str(), Strip::Char('"')))
            } else {
                None
            }
        },
        None => None,
    }
}

/// The truth value that a text spells: `true` or `false`, with white space
/// around it allowed, and nothing else.
pub open spec fn bool_of(text: Seq<char>) -> Option<bool> {
    let word = stripped(text, Strip::WhiteSpace);
    if word == "true"@ {
        Some(true)
    } else if word == "false"@ {
        Some(false)
    } else {
        None
    }
}

/// The truth value that an optional text spells.
pub open spec fn flag_of(val: Option<Seq<char>>) -> Option<bool> {
    match val {
        Some(text) => bool_of(text),
        None => None,
    }
}

/// Reads `true` or `false` from a text, if it spells one of them.
pub fn string_2_bool(val: Option<String>) -> (out: Option<bool>)
    ensures
        out == flag_of(text_of(val)),
{
    match val {
        Some(text) => {
            let word = strip(text.as_str(), Strip::WhiteSpace);
            if str_eq(word.as_str(), "true") {
                Some(true)
            } else if str_eq(word.as_str(), "false") {
                Some(false)
            } else {
                None
            }
        },
        None => None,
    }
}

/// The version that a version file holds: its content without the white
/// space around it.
pub open spec fn version_of(content: Option<Seq<char>>) -> Option<Seq<char>> {
    match content {
        Some(text) => Some(stripped(text, Strip::WhiteSpace)),
        None => None,
    }
}

/// The content of a version file without the white space around it. `None`
/// stands for a file that could not be read.
pub fn get_hpos_nixpkgs_version(content: Option<String>) -> (out: Option<String>)
    ensures
        text_of(out) == version_of(text_of(content)),
{
    match content {
        Some(text) => Some(strip(text.as_str(), Strip::WhiteSpace)),
        None => None,
    }
}

/// The path of the channel's version file, as the command that evaluates it
/// printed it: the trimmed output of a command that ran with success.
pub open spec fn version_path_of(res: ExecResult) -> Option<Seq<char>> {
    match res {
        Some(data) => if data.success {
            Some(stripped(data.stdout@, Strip::WhiteSpace))
        } else {
            None
        },
        None => None,
    }
}

/// The path of the channel's version file, from the outcome of the command
/// that evaluates it.
pub fn channel_version_path(res: ExecResult) -> (out: Option<String>)
    ensures
        text_of(out) == version_path_of(res),
{
    match res {
        Some(data) => {
            if data.success {
                Some(strip(data.stdout.as_str(), Strip::WhiteSpace))
            } else {
                None
            }
        },
        None => None,
    }
}

/// The channel's version, from the content of its version file.
pub fn get_holo_nixpkgs_channel_version(content: Option<String>) -> (out: Option<String>)
    ensures
        text_of(out) == version_of(text_of(content)),
{
    get_hpos_nixpkgs_version(content)
}

/// What the host's commands and files gave, one entry for each fact.
#[derive(Debug)]
pub struct HostFacts {
    pub holo_network: ExecResult,
    pub channel: ExecResult,
    pub holoport_model: ExecResult,
    pub ssh_status: ExecResult,
    pub zt_ip: ExecResult,
    pub wan_ip: ExecResult,
    /// The content of the channel's version file.
    pub channel_version: Option<String>,
    /// The content of the system's version file.
    pub hpos_version: Option<String>,
}

/// What the conductor gave about the host's applications. Each part is the
/// outcome of its own aggregation.
#[derive(Debug)]
pub struct Inventory {
    /// The status of every installed application.
    pub health: Result<HealthMap, Error>,
    /// The running applications by category.
    pub running: Result<RunningApps, Error>,
    /// How often each hosted application is installed.
    pub usage: Result<UsageCounts, Error>,
}

impl Inventory {
    /// The failure of the inventory: that of the first part that failed, in
    /// the order health, running applications, usage. `None` where every
    /// part is there.
    pub open spec fn failure(&self) -> Option<Error> {
        match (self.health, self.running, self.usage) {
            (Err(e), _, _) => Some(e),
            (Ok(_), Err(e), _) => Some(e),
            (Ok(_), Ok(_), Err(e)) => Some(e),
            (Ok(_), Ok(_), Ok(_)) => None,
        }
    }
}

/// The statistics payload. The facts of the host may be absent; what the
/// conductor gave about the applications is always there.
#[derive(Debug)]
pub struct Stats {
    pub holo_network: Option<String>,
    pub channel: Option<String>,
    pub holoport_model: Option<String>,
    pub ssh_status: Option<bool>,
    pub zt_ip: Option<String>,
    pub wan_ip: Option<String>,
    pub holoport_id: Option<String>,
    pub timestamp: Option<u32>,
    pub hpos_app_list: HealthMap,
    pub running_apps: RunningApps,
    pub installed_app_usage: UsageCounts,
    pub channel_version: Option<String>,
    pub hpos_version: Option<String>,
}

impl Stats {
    /// Assembles the payload of the host with identifier `pubkey_base36`.
    /// Each fact is the cleaned output of its command, and absent where the
    /// command failed. Where a part of the inventory failed, no payload is
    /// made: the failure is returned as it is. The payload carries no
    /// timestamp.
    pub fn new(pubkey_base36: &str, facts: HostFacts, inventory: Inventory) -> (out: Result<
        Stats,
        Error,
    >)
        ensures
            match inventory.failure() {
                Some(e) => out == Err::<Stats, Error>(e),
                None => {
                    &&& out matches Ok(stats)
                    &&& text_of(stats.holo_network) == fact_of(facts.holo_network)
                    &&& text_of(stats.channel) == fact_of(facts.channel)
                    &&& text_of(stats.holoport_model) == fact_of(facts.holoport_model)
                    &&& stats.ssh_status == flag_of(fact_of(facts.ssh_status))
                    &&& text_of(stats.zt_ip) == fact_of(facts.zt_ip)
                    &&& text_of(stats.wan_ip) == fact_of(facts.wan_ip)
                    &&& text_of(stats.holoport_id) == Some(pubkey_base36@)
                    &&& stats.timestamp.is_none()
                    &&& Ok::<HealthMap, Error>(stats.hpos_app_list) == inventory.health
                    &&& Ok::<RunningApps, Error>(stats.running_apps) == inventory.running
                    &&& Ok::<UsageCounts, Error>(stats.installed_app_usage) == inventory.usage
                    &&& text_of(stats.channel_version) == version_of(
                        text_of(facts.channel_version),
                    )
                    &&& text_of(stats.hpos_version) == version_of(text_of(facts.hpos_version))
                },
            },
    {
        let Inventory { health, running, usage } = inventory;
        let hpos_app_list = match health {
            Ok(map) => map,
            Err(e) => {
                return Err(e);
            },
        };
        let running_apps = match running {
            Ok(apps) => apps,
            Err(e) => {
                return Err(e);
            },
        };
        let installed_app_usage = match usage {
            Ok(counts) => counts,
            Err(e) => {
                return Err(e);
            },
        };
        Ok(
            Stats {
                holo_network: wrap(facts.holo_network),
                channel: wrap(facts.channel),
                holoport_model: wrap(facts.holoport_model),
                ssh_status: string_2_bool(wrap(facts.ssh_status)),
                zt_ip: wrap(facts.zt_ip),
                wan_ip: wrap(facts.wan_ip),
                holoport_id: Some(pubkey_base36.to_owned()),
                timestamp: None,
                hpos_app_list,
                running_apps,
                installed_app_usage,
                channel_version: get_holo_nixpkgs_channel_version(facts.channel_version),
                hpos_version: get_hpos_nixpkgs_version(facts.hpos_version),
            },
        )
    }
}

} // verus!
