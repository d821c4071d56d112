//! The application core state: the selected mode, title and identities, the
//! derived output path, and the decision that either rejects a job, raises
//! the already-encrypted warning, or starts processing. All file and screen
//! work stays with the caller; this state machine only decides.

use vstd::prelude::*;
use vstd::string::{StrSliceExecFns, StringExecFns};
use crate::errors::{error_message, ErrorKind, IdRole, IdentityFault};
use crate::entropy::spec_is_encrypted;
use crate::files::{base_name_of, dir_of, is_save_name, split_path};
use crate::identity::{spec_validate, valid_steam_id};

verus! {

/// What a batch does to each file.
#[derive(Clone, Copy, Debug, PartialEq, Eq, Structural)]
pub enum Mode {
    Resign,
    Decrypt,
    Encrypt,
}

/// The suffix appended to the output folder's name, per mode.
pub open spec fn mode_suffix(m: Mode) -> Seq<char> {
    match m {
        Mode::Resign => "_resigned"@,
        Mode::Decrypt => "_decrypted"@,
        Mode::Encrypt => "_encrypted"@,
    }
}

/// Where a job stands: idle, waiting on the already-encrypted confirmation,
/// running, or finished with a message.
#[derive(Clone, Debug)]
pub enum Status {
    Idle,
    Processing,
    Completed(String),
    Error(String),
    /// The encrypt-mode confirmation gate, carrying the pending job's input
    /// root, output root, title code and identity.
    EncryptionWarning(String, String, String, String),
}

/// How many titles are registered.
pub const GAME_COUNT: usize = 2;

/// The display name of a registered title.
pub open spec fn spec_game_name(i: int) -> Seq<char> {
    if i == 0 {
        "DOOM Eternal & The Dark Ages"@
    } else {
        "Indiana Jones and the Great Circle"@
    }
}

/// The transform code of a registered title: an opaque short string used
/// verbatim as key-derivation and associated-data input.
pub open spec fn spec_game_code(i: int) -> Seq<char> {
    if i == 0 {
        "MANCUBUS"@
    } else {
        "SUKHOTHAI"@
    }
}

/// The display name of a registered title.
pub fn game_name(idx: usize) -> (r: &'static str)
    requires
        idx < GAME_COUNT,
    ensures
        r@ == spec_game_name(idx as int),
{
    if idx == 0 {
        "DOOM Eternal & The Dark Ages"
    } else {
        "Indiana Jones and the Great Circle"
    }
}

/// The transform code of a registered title.
pub fn game_code(idx: usize) -> (r: &'static str)
    requires
        idx < GAME_COUNT,
    ensures
        r@ == spec_game_code(idx as int),
{
    if idx == 0 {
        "MANCUBUS"
    } else {
        "SUKHOTHAI"
    }
}

/// The validation outcome for a whole job, in check order: in resign mode the
/// old identity, then the new identity, then their inequality; in the other
/// modes the single identity.
pub open spec fn job_error(m: Mode, steam_id: Seq<char>, old_id: Seq<char>, new_id: Seq<char>) -> Option<ErrorKind> {
    match m {
        Mode::Decrypt | Mode::Encrypt => match spec_validate(steam_id) {
            Err(f) => Some(ErrorKind::InvalidIdentity { role: IdRole::Single, fault: f }),
            Ok(()) => None,
        },
        Mode::Resign => match spec_validate(old_id) {
            Err(f) => Some(ErrorKind::InvalidIdentity { role: IdRole::Old, fault: f }),
            Ok(()) => match spec_validate(new_id) {
                Err(f) => Some(ErrorKind::InvalidIdentity { role: IdRole::New, fault: f }),
                Ok(()) => if old_id == new_id {
                    Some(ErrorKind::IdenticalIdentities)
                } else {
                    None
                },
            },
        },
    }
}

/// The output root a job writes under: the configured output folder, or the
/// input folder's parent when none is configured, joined with the input
/// folder's name plus the mode's suffix.
pub open spec fn final_output_path(input_dir: Seq<char>, output_dir: Seq<char>, m: Mode) -> Seq<char> {
    let nm = if base_name_of(input_dir).len() == 0 {
        "output"@
    } else {
        base_name_of(input_dir)
    };
    let base = if output_dir.len() == 0 {
        dir_of(input_dir)
    } else {
        output_dir
    };
    if base.len() == 0 {
        nm + mode_suffix(m)
    } else {
        base + "/"@ + nm + mode_suffix(m)
    }
}

/// The sequence starts with the given prefix.
pub open spec fn seq_has_prefix(s: Seq<char>, p: Seq<char>) -> bool {
    s.len() >= p.len() && s.take(p.len() as int) == p
}

fn str_has_prefix(s: &str, p: &str) -> (r: bool)
    ensures
        r == seq_has_prefix(s@, p@),
{
    let n = s.unicode_len();
    let m = p.unicode_len();
    if n < m {
        return false;
    }
    let mut i: usize = 0;
    while i < m
        invariant
            s@.len() == n,
            p@.len() == m,
            m <= n,
            i <= m,
            forall|j: int| 0 <= j < i ==> s@[j] == p@[j],
        decreases m - i,
    {
        if s.get_char(i) != p.get_char(i) {
            proof {
                assert(s@.take(m as int)[i as int] != p@[i as int]);
            }
            return false;
        }
        i = i + 1;
    }
    proof {
        assert(s@.take(m as int) =~= p@);
    }
    true
}

/// The application core: the user's selections and the job's status. The
/// caller owns every screen and file; it reads and writes these fields and
/// asks `process_files` for the next step.
pub struct SaveDataApp {
    pub mode: Mode,
    pub game_idx: usize,
    pub input_dir: String,
    pub output_dir: String,
    pub steam_id: String,
    pub old_id: String,
    pub new_id: String,
    pub status: Status,
}

impl SaveDataApp {
    /// A fresh core: resign mode, the first title, no paths, no identities,
    /// idle.
    pub fn new() -> (r: Self)
        ensures
            r.mode == Mode::Resign,
            r.game_idx == 0,
            r.input_dir@ == Seq::<char>::empty(),
            r.output_dir@ == Seq::<char>::empty(),
            r.steam_id@ == Seq::<char>::empty(),
            r.old_id@ == Seq::<char>::empty(),
            r.new_id@ == Seq::<char>::empty(),
            r.status is Idle,
    {
        SaveDataApp {
            mode: Mode::Resign,
            game_idx: 0,
            input_dir: String::new(),
            output_dir: String::new(),
            steam_id: String::new(),
            old_id: String::new(),
            new_id: String::new(),
            status: Status::Idle,
        }
    }

    /// The suffix appended to the output folder's name for the current mode.
    pub fn get_suffix(&self) -> (r: &'static str)
        ensures
            r@ == mode_suffix(self.mode),
    {
        match self.mode {
            Mode::Resign => "_resigned",
            Mode::Decrypt => "_decrypted",
            Mode::Encrypt => "_encrypted",
        }
    }

    /// The output root the current job would write under.
    pub fn get_final_output_path(&self) -> (r: String)
        ensures
            r@ == final_output_path(self.input_dir@, self.output_dir@, self.mode),
    {
        let (dir, base) = split_path(self.input_dir.as_str());
        let name = if base.as_str().unicode_len() == 0 {
            String::from_str("output")
        } else {
            base
        };
        let mut out = if self.output_dir.as_str().unicode_len() == 0 {
            dir
        } else {
            self.output_dir.clone()
        };
        if out.as_str().unicode_len() != 0 {
            out.append("/");
        }
        out.append(name.as_str());
        out.append(self.get_suffix());
        out
    }

    /// Validate an identity string; see `crate::identity::validate_steam_id`.
    pub fn validate_steam_id(id: &str) -> (r: Result<(), IdentityFault>)
        ensures
            r == spec_validate(id@),
            r is Ok <==> valid_steam_id(id@),
    {
        crate::identity::validate_steam_id(id)
    }

    /// Estimate whether a buffer is already ciphertext; see
    /// `crate::entropy::classify_encrypted`.
    pub fn is_file_encrypted(data: &[u8]) -> (r: bool)
        ensures
            r == spec_is_encrypted(data@),
    {
        crate::entropy::classify_encrypted(data)
    }

    /// Is this file name (base name only) a recognized save file?
    pub fn is_save(name: &str) -> (r: bool)
        ensures
            r == is_save_name(name@),
    {
        crate::files::is_save_file(name)
    }

    /// Validate the current job's identities, in check order.
    pub fn check_inputs(&self) -> (r: Result<(), ErrorKind>)
        ensures
            match r {
                Ok(()) => job_error(self.mode, self.steam_id@, self.old_id@, self.new_id@) is None,
                Err(e) => job_error(self.mode, self.steam_id@, self.old_id@, self.new_id@)
                    == Some(e),
            },
    {
        match self.mode {
            Mode::Decrypt | Mode::Encrypt => match Self::validate_steam_id(self.steam_id.as_str()) {
                Err(f) => Err(ErrorKind::InvalidIdentity { role: IdRole::Single, fault: f }),
                Ok(()) => Ok(()),
            },
            Mode::Resign => {
                match Self::validate_steam_id(self.old_id.as_str()) {
                    Err(f) => {
                        return Err(ErrorKind::InvalidIdentity { role: IdRole::Old, fault: f });
                    },
                    Ok(()) => {},
                }
                match Self::validate_steam_id(self.new_id.as_str()) {
                    Err(f) => {
                        return Err(ErrorKind::InvalidIdentity { role: IdRole::New, fault: f });
                    },
                    Ok(()) => {},
                }
                if self.old_id == self.new_id {
                    return Err(ErrorKind::IdenticalIdentities);
                }
                Ok(())
            },
        }
    }

    /// Decide what a start request does: reject an invalid job with its error
    /// message; in encrypt mode, if the first collected file (handed in by the
    /// caller) looks already encrypted, stop at the confirmation gate; else
    /// enter processing. Only the status changes.
    pub fn process_files(&mut self, first_file: Option<&Vec<u8>>)
        requires
            old(self).game_idx < GAME_COUNT,
        ensures
            final(self).mode == old(self).mode,
            final(self).game_idx == old(self).game_idx,
            final(self).input_dir == old(self).input_dir,
            final(self).output_dir == old(self).output_dir,
            final(self).steam_id == old(self).steam_id,
            final(self).old_id == old(self).old_id,
            final(self).new_id == old(self).new_id,
            match job_error(old(self).mode, old(self).steam_id@, old(self).old_id@, old(self).new_id@) {
                Some(e) => final(self).status matches Status::Error(m) && m@ == error_message(e),
                None => {
                    if old(self).mode == Mode::Encrypt && (first_file matches Some(d)
                        && spec_is_encrypted(d@)) {
                        final(self).status matches Status::EncryptionWarning(i, o, c, s)
                            && i@ == old(self).input_dir@
                            && o@ == final_output_path(old(self).input_dir@, old(self).output_dir@, old(self).mode)
                            && c@ == spec_game_code(old(self).game_idx as int)
                            && s@ == old(self).steam_id@
                    } else {
                        final(self).status is Processing
                    }
                },
            },
    {
        match self.check_inputs() {
            Err(e) => {
                self.status = Status::Error(e.message());
                return;
            },
            Ok(()) => {},
        }
        if self.mode == Mode::Encrypt {
            match first_file {
                Some(data) => {
                    if Self::is_file_encrypted(data.as_slice()) {
                        let out = self.get_final_output_path();
                        let code = String::from_str(game_code(self.game_idx));
                        self.status = Status::EncryptionWarning(
                            self.input_dir.clone(),
                            out,
                            code,
                            self.steam_id.clone(),
                        );
                        return;
                    }
                },
                None => {},
            }
        }
        self.status = Status::Processing;
    }

    /// Apply the worker's one-shot terminal message: a message prefixed
    /// "COMPLETED:" completes the job with the rest of the message, one
    /// prefixed "ERROR:" fails it with the rest, and anything else leaves the
    /// status as it is.
    pub fn update_status(&mut self, msg: &str)
        ensures
            final(self).mode == old(self).mode,
            final(self).game_idx == old(self).game_idx,
            final(self).input_dir == old(self).input_dir,
            final(self).output_dir == old(self).output_dir,
            final(self).steam_id == old(self).steam_id,
            final(self).old_id == old(self).old_id,
            final(self).new_id == old(self).new_id,
            if seq_has_prefix(msg@, "COMPLETED:"@) {
                final(self).status matches Status::Completed(m) && m@ == msg@.skip(10)
            } else if seq_has_prefix(msg@, "ERROR:"@) {
                final(self).status matches Status::Error(m) && m@ == msg@.skip(6)
            } else {
                final(self).status == old(self).status
            },
    {
        proof {
            reveal_strlit("COMPLETED:");
            reveal_strlit("ERROR:");
        }
        if str_has_prefix(msg, "COMPLETED:") {
            let rest = msg.substring_char(10, msg.unicode_len());
            self.status = Status::Completed(String::from_str(rest));
        } else if str_has_prefix(msg, "ERROR:") {
            let rest = msg.substring_char(6, msg.unicode_len());
            self.status = Status::Error(String::from_str(rest));
        }
    }
}

} // verus!
