//! What a run is asked to do, and how the command line says it.

use crate::decimal::{parse_u32, u32_of};
use vstd::prelude::*;
use vstd::string::StringExecFns;

verus! {

/// Number of files fetched when the command line names none.
pub const DEFAULT_MAX_FILES: u32 = 10;

/// Number of assets in a chunk.
pub const CHUNK_SIZE: usize = 10;

/// The parameters of a run.
pub struct Settings {
    /// The collection whose covers are fetched.
    pub policy_id: String,
    /// The directory that receives the files.
    pub work_dir: String,
    /// The number of files that the run may count at most.
    pub max_files: u32,
    /// The address of the gateway, to which a content identifier is appended.
    pub gateway: String,
}

/// The parameters of a run, as mathematical values.
pub struct SettingsView {
    pub policy_id: Seq<char>,
    pub work_dir: Seq<char>,
    pub max_files: nat,
    pub gateway: Seq<char>,
}

impl View for Settings {
    type V = SettingsView;

    open spec fn view(&self) -> SettingsView {
        SettingsView {
            policy_id: self.policy_id@,
            work_dir: self.work_dir@,
            max_files: self.max_files as nat,
            gateway: self.gateway@,
        }
    }
}

/// The directory used when the command line names none: the current one.
pub open spec fn default_work_dir() -> Seq<char> {
    "."@
}

/// The gateway used when the command line names none.
pub open spec fn default_gateway() -> Seq<char> {
    "https://ipfs.io/ipfs/"@
}

/// The file count that the argument `arg` asks for: its value when it is a
/// 32-bit unsigned decimal, the default otherwise.
pub open spec fn max_files_of(arg: Seq<char>) -> nat {
    match u32_of(arg) {
        Some(n) => n as nat,
        None => DEFAULT_MAX_FILES as nat,
    }
}

/// The settings that a command line asks for. `args[0]` is the program's
/// name; the policy id follows, then, each optional, the working directory,
/// the file count and the gateway. A command line without a policy id asks
/// for nothing.
pub open spec fn settings_of(args: Seq<Seq<char>>) -> Option<SettingsView> {
    if args.len() <= 1 {
        None
    } else {
        Some(
            SettingsView {
                policy_id: args[1],
                work_dir: if args.len() > 2 {
                    args[2]
                } else {
                    default_work_dir()
                },
                max_files: if args.len() > 3 {
                    max_files_of(args[3])
                } else {
                    DEFAULT_MAX_FILES as nat
                },
                gateway: if args.len() > 4 {
                    args[4]
                } else {
                    default_gateway()
                },
            },
        )
    }
}

impl Settings {
    /// Reads the settings from a command line.
    pub fn from_args(args: &Vec<String>) -> (res: Option<Settings>)
        ensures
            match res {
                Some(s) => settings_of(args.deep_view()) == Some(s@),
                None => settings_of(args.deep_view()) is None,
            },
    {
        if args.len() <= 1 {
            return None;
        }
        let policy_id = args[1].clone();
        let work_dir = if args.len() > 2 {
            args[2].clone()
        } else {
            ".".to_owned()
        };
        let max_files = if args.len() > 3 {
            match parse_u32(args[3].as_str()) {
                Some(n) => n,
                None => DEFAULT_MAX_FILES,
            }
        } else {
            DEFAULT_MAX_FILES
        };
        let gateway = if args.len() > 4 {
            args[4].clone()
        } else {
            "https://ipfs.io/ipfs/".to_owned()
        };
        Some(Settings { policy_id, work_dir, max_files, gateway })
    }
}

/// The path of the file that holds the cover of `asset`.
pub open spec fn final_path_of(work_dir: Seq<char>, asset: Seq<char>) -> Seq<char> {
    work_dir + "/"@ + asset
}

/// The path under which the cover of `asset` is written before it takes its
/// final name.
pub open spec fn temp_path_of(work_dir: Seq<char>, asset: Seq<char>) -> Seq<char> {
    final_path_of(work_dir, asset) + ".tmp"@
}

/// The address at which the gateway serves the content `cid`.
pub open spec fn url_of(gateway: Seq<char>, cid: Seq<char>) -> Seq<char> {
    gateway + cid
}

/// Builds the path of the file that holds the cover of `asset`.
pub fn final_path(work_dir: &String, asset: &String) -> (path: String)
    ensures
        path@ == final_path_of(work_dir@, asset@),
{
    let mut path = work_dir.clone();
    path.append("/");
    path.append(asset.as_str());
    path
}

/// Builds the path under which the cover of `asset` is first written.
pub fn temp_path(work_dir: &String, asset: &String) -> (path: String)
    ensures
        path@ == temp_path_of(work_dir@, asset@),
{
    let mut path = final_path(work_dir, asset);
    path.append(".tmp");
    path
}

/// Builds the address at which the gateway serves the content `cid`.
pub fn gateway_url(gateway: &String, cid: &String) -> (url: String)
    ensures
        url@ == url_of(gateway@, cid@),
{
    let mut url = gateway.clone();
    url.append(cid.as_str());
    url
}

} // verus!
