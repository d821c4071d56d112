//! The batch job's verified core. The caller walks the tree, reads and writes
//! files, and supplies a timestamp; this module makes every decision: which
//! transform to run on each file with which identities, the per-file log, the
//! abort on the first failure, and the run summary and terminal messages.

use vstd::prelude::*;
use vstd::string::StringExecFns;
use crate::app::Mode;
use crate::crypto::{blob_plaintext, id_material, IdCrypto, GCM_LENGTH_LIMIT, NONCE_AND_TAG_TOTAL_LENGTH};
use crate::errors::ErrorKind;

verus! {

/// The character of one decimal digit.
pub open spec fn digit_char(d: nat) -> char {
    if d == 0 {
        '0'
    } else if d == 1 {
        '1'
    } else if d == 2 {
        '2'
    } else if d == 3 {
        '3'
    } else if d == 4 {
        '4'
    } else if d == 5 {
        '5'
    } else if d == 6 {
        '6'
    } else if d == 7 {
        '7'
    } else if d == 8 {
        '8'
    } else {
        '9'
    }
}

/// The decimal rendering of a number, most significant digit first, no sign
/// and no leading zeros (a lone zero for 0).
pub open spec fn dec_digits(n: nat) -> Seq<char>
    decreases n,
{
    if n < 10 {
        seq![digit_char(n)]
    } else {
        dec_digits(n / 10) + seq![digit_char(n % 10)]
    }
}

fn digit_str(d: u64) -> (r: &'static str)
    requires
        d < 10,
    ensures
        r@.len() == 1,
        r@[0] == digit_char(d as nat),
{
    proof {
        reveal_strlit("0");
        reveal_strlit("1");
        reveal_strlit("2");
        reveal_strlit("3");
        reveal_strlit("4");
        reveal_strlit("5");
        reveal_strlit("6");
        reveal_strlit("7");
        reveal_strlit("8");
        reveal_strlit("9");
    }
    match d {
        0 => "0",
        1 => "1",
        2 => "2",
        3 => "3",
        4 => "4",
        5 => "5",
        6 => "6",
        7 => "7",
        8 => "8",
        _ => "9",
    }
}

/// Render a number in decimal.
pub fn u64_to_string(n: u64) -> (r: String)
    ensures
        r@ == dec_digits(n as nat),
    decreases n,
{
    if n < 10 {
        let s = String::from_str(digit_str(n));
        proof {
            assert(s@ =~= dec_digits(n as nat));
        }
        s
    } else {
        let mut s = u64_to_string(n / 10);
        s.append(digit_str(n % 10));
        proof {
            assert(s@ =~= dec_digits(n as nat));
        }
        s
    }
}

/// The log line announcing one file, e.g. "Decrypting save.bin...\n".
pub open spec fn log_line(m: Mode, name: Seq<char>) -> Seq<char> {
    (match m {
        Mode::Resign => "Resigning "@,
        Mode::Decrypt => "Decrypting "@,
        Mode::Encrypt => "Encrypting "@,
    }) + name + "...\n"@
}

/// The summary's count line, e.g. "Decrypted 3 files from SteamID <id>".
pub open spec fn summary_line(m: Mode, count: nat, first_id: Seq<char>, second_id: Seq<char>) -> Seq<char> {
    match m {
        Mode::Decrypt => "Decrypted "@ + dec_digits(count) + " files from SteamID "@ + first_id,
        Mode::Encrypt => "Encrypted "@ + dec_digits(count) + " files for SteamID "@ + first_id,
        Mode::Resign => "Resigned "@ + dec_digits(count) + " files from SteamID "@ + first_id
            + " to SteamID "@ + second_id,
    }
}

/// The whole run summary artifact: timestamp, count line, then the per-file
/// log in processing order.
pub open spec fn summary_text(m: Mode, timestamp: Seq<char>, count: nat, first_id: Seq<char>, second_id: Seq<char>, log: Seq<char>) -> Seq<char> {
    "Processing completed at: "@ + timestamp + "\n\n"@ + summary_line(m, count, first_id, second_id)
        + "\n\n"@ + log
}

/// The terminal success message, e.g. "Successfully resigned 1 files".
pub open spec fn success_text(m: Mode, count: nat) -> Seq<char> {
    "Successfully "@ + (match m {
        Mode::Resign => "resigned "@,
        Mode::Decrypt => "decrypted "@,
        Mode::Encrypt => "encrypted "@,
    }) + dec_digits(count) + " files"@
}

/// The terminal failure message naming the offending file and hinting that
/// the identity is the most likely cause.
pub open spec fn failure_text(m: Mode, name: Seq<char>) -> Seq<char> {
    "Failed to "@ + (match m {
        Mode::Resign => "resign "@,
        Mode::Decrypt => "decrypt "@,
        Mode::Encrypt => "encrypt "@,
    }) + name + (if m is Resign {
        ": Check if Old SteamID is correct"@
    } else {
        ": Check if SteamID is correct"@
    })
}

/// What a successful transform of one file guarantees, per mode: decryption
/// returns the blob's plaintext; encryption returns a blob that decrypts back
/// to the input under the same parameters; resigning returns a blob that
/// decrypts under the new identity to what the input decrypts to under the
/// old one.
pub open spec fn transform_ok(m: Mode, data: Seq<u8>, name: Seq<char>, code: Seq<char>, first_id: Seq<char>, second_id: Seq<char>, out: Seq<u8>) -> bool {
    match m {
        Mode::Decrypt => blob_plaintext(data, name, code, first_id) == Some(out)
            && out.len() + NONCE_AND_TAG_TOTAL_LENGTH == data.len(),
        Mode::Encrypt => blob_plaintext(out, name, code, first_id) == Some(data)
            && out.len() == data.len() + NONCE_AND_TAG_TOTAL_LENGTH,
        Mode::Resign => blob_plaintext(data, name, code, first_id) is Some
            && blob_plaintext(out, name, code, second_id) == blob_plaintext(data, name, code, first_id)
            && out.len() == data.len(),
    }
}

/// On which inputs a transform is owed success, per mode.
pub open spec fn transform_succeeds(m: Mode, data: Seq<u8>, name: Seq<char>, code: Seq<char>, first_id: Seq<char>, second_id: Seq<char>) -> bool {
    match m {
        Mode::Decrypt => blob_plaintext(data, name, code, first_id) is Some,
        Mode::Encrypt => data.len() <= GCM_LENGTH_LIMIT && id_material(first_id, code, name).len()
            <= GCM_LENGTH_LIMIT,
        Mode::Resign => blob_plaintext(data, name, code, first_id) is Some && data.len()
            <= GCM_LENGTH_LIMIT + NONCE_AND_TAG_TOTAL_LENGTH && id_material(second_id, code, name).len()
            <= GCM_LENGTH_LIMIT,
    }
}

/// Round trip: a blob that a successful encryption of `p` produced decrypts,
/// under the same file name, title code and identity, to exactly `p`.
pub proof fn lemma_encrypt_then_decrypt(p: Seq<u8>, name: Seq<char>, code: Seq<char>, id: Seq<char>, blob: Seq<u8>)
    requires
        transform_ok(Mode::Encrypt, p, name, code, id, id, blob),
    ensures
        transform_ok(Mode::Decrypt, blob, name, code, id, id, p),
{
}

/// Resign composition: a blob that a successful resign produced decrypts
/// under the new identity to exactly what the input (a blob of the stated
/// framing, as encryption produces it) decrypted to under the old identity.
pub proof fn lemma_resign_recovers(data: Seq<u8>, name: Seq<char>, code: Seq<char>, old_id: Seq<char>, new_id: Seq<char>, out: Seq<u8>, p: Seq<u8>)
    requires
        transform_ok(Mode::Resign, data, name, code, old_id, new_id, out),
        blob_plaintext(data, name, code, old_id) == Some(p),
        p.len() + NONCE_AND_TAG_TOTAL_LENGTH == data.len(),
    ensures
        transform_ok(Mode::Decrypt, out, name, code, new_id, new_id, p),
{
}

/// Which error a failed transform reports, per mode.
pub open spec fn transform_error(m: Mode, data: Seq<u8>, name: Seq<char>, code: Seq<char>, first_id: Seq<char>) -> ErrorKind {
    if m is Encrypt {
        ErrorKind::EncryptionFailed
    } else if data.len() < NONCE_AND_TAG_TOTAL_LENGTH {
        ErrorKind::MalformedInput
    } else if blob_plaintext(data, name, code, first_id) is None {
        ErrorKind::AuthenticationFailed
    } else {
        ErrorKind::EncryptionFailed
    }
}

/// Map the caller's findings about the input root to the batch's
/// preconditions: the root must exist and must be a directory.
pub fn check_input_root(input_exists: bool, input_is_file: bool) -> (r: Result<(), ErrorKind>)
    ensures
        r is Ok <==> (input_exists && !input_is_file),
        r == Err::<(), ErrorKind>(ErrorKind::PathNotFound) <==> !input_exists,
        r == Err::<(), ErrorKind>(ErrorKind::NotADirectory) <==> (input_exists && input_is_file),
{
    if !input_exists {
        Err(ErrorKind::PathNotFound)
    } else if input_is_file {
        Err(ErrorKind::NotADirectory)
    } else {
        Ok(())
    }
}

/// One batch run over a collected file list. Files are handed in one at a
/// time, in collection order; the runner transforms each, keeps the per-file
/// log and the processed count, and the caller aborts the run on the first
/// error.
pub struct BatchRunner {
    pub mode: Mode,
    pub game_code: String,
    /// The identity of a decrypt or encrypt job; the old identity of a resign
    /// job.
    pub first_id: String,
    /// The new identity of a resign job; unused otherwise.
    pub second_id: String,
    pub processed: u64,
    pub log: String,
}

impl BatchRunner {
    /// A runner with nothing processed and an empty log.
    pub fn new(mode: Mode, game_code: String, first_id: String, second_id: String) -> (r: Self)
        ensures
            r.mode == mode,
            r.game_code == game_code,
            r.first_id == first_id,
            r.second_id == second_id,
            r.processed == 0,
            r.log@ == Seq::<char>::empty(),
    {
        BatchRunner { mode, game_code, first_id, second_id, processed: 0, log: String::new() }
    }

    /// Transform one file's bytes. The log gains the file's line whatever the
    /// outcome; the processed count grows only on success. The caller aborts
    /// the batch on the first error.
    pub fn process_one(&mut self, file_name: &str, data: &Vec<u8>) -> (r: Result<Vec<u8>, ErrorKind>)
        requires
            old(self).processed < u64::MAX,
        ensures
            final(self).mode == old(self).mode,
            final(self).game_code == old(self).game_code,
            final(self).first_id == old(self).first_id,
            final(self).second_id == old(self).second_id,
            final(self).log@ == old(self).log@ + log_line(old(self).mode, file_name@),
            r matches Ok(out) ==> {
                &&& final(self).processed == old(self).processed + 1
                &&& transform_ok(old(self).mode, data@, file_name@, old(self).game_code@,
                    old(self).first_id@, old(self).second_id@, out@)
            },
            r is Ok <==> transform_succeeds(old(self).mode, data@, file_name@,
                old(self).game_code@, old(self).first_id@, old(self).second_id@),
            r matches Err(e) ==> {
                &&& final(self).processed == old(self).processed
                &&& e == transform_error(old(self).mode, data@, file_name@, old(self).game_code@,
                    old(self).first_id@)
            },
    {
        self.log.append(
            match self.mode {
                Mode::Resign => "Resigning ",
                Mode::Decrypt => "Decrypting ",
                Mode::Encrypt => "Encrypting ",
            },
        );
        self.log.append(file_name);
        self.log.append("...\n");
        proof {
            assert(self.log@ =~= old(self).log@ + log_line(old(self).mode, file_name@));
        }
        let result = match self.mode {
            Mode::Decrypt => IdCrypto::decrypt_file(
                data.as_slice(),
                file_name,
                self.game_code.as_str(),
                self.first_id.as_str(),
            ),
            Mode::Encrypt => IdCrypto::encrypt_file(
                data.as_slice(),
                file_name,
                self.game_code.as_str(),
                self.first_id.as_str(),
            ),
            Mode::Resign => IdCrypto::resign_file(
                data.as_slice(),
                file_name,
                self.game_code.as_str(),
                self.first_id.as_str(),
                self.second_id.as_str(),
            ),
        };
        match result {
            Ok(out) => {
                self.processed = self.processed + 1;
                Ok(out)
            },
            Err(e) => Err(e),
        }
    }

    /// The run summary artifact for a completed run, with the caller's
    /// timestamp.
    pub fn summary(&self, timestamp: &str) -> (r: String)
        ensures
            r@ == summary_text(self.mode, timestamp@, self.processed as nat, self.first_id@,
                self.second_id@, self.log@),
    {
        let mut s = String::from_str("Processing completed at: ");
        s.append(timestamp);
        s.append("\n\n");
        let count = u64_to_string(self.processed);
        match self.mode {
            Mode::Decrypt => {
                s.append("Decrypted ");
                s.append(count.as_str());
                s.append(" files from SteamID ");
                s.append(self.first_id.as_str());
            },
            Mode::Encrypt => {
                s.append("Encrypted ");
                s.append(count.as_str());
                s.append(" files for SteamID ");
                s.append(self.first_id.as_str());
            },
            Mode::Resign => {
                s.append("Resigned ");
                s.append(count.as_str());
                s.append(" files from SteamID ");
                s.append(self.first_id.as_str());
                s.append(" to SteamID ");
                s.append(self.second_id.as_str());
            },
        }
        s.append("\n\n");
        s.append(self.log.as_str());
        proof {
            assert(s@ =~= summary_text(self.mode, timestamp@, self.processed as nat,
                self.first_id@, self.second_id@, self.log@));
        }
        s
    }

    /// The terminal success message with the processed-file count.
    pub fn success_message(&self) -> (r: String)
        ensures
            r@ == success_text(self.mode, self.processed as nat),
    {
        let mut s = String::from_str("Successfully ");
        s.append(
            match self.mode {
                Mode::Resign => "resigned ",
                Mode::Decrypt => "decrypted ",
                Mode::Encrypt => "encrypted ",
            },
        );
        let count = u64_to_string(self.processed);
        s.append(count.as_str());
        s.append(" files");
        proof {
            assert(s@ =~= success_text(self.mode, self.processed as nat));
        }
        s
    }

    /// The terminal failure message for the file the batch aborted on.
    pub fn failure_message(&self, file_name: &str) -> (r: String)
        ensures
            r@ == failure_text(self.mode, file_name@),
    {
        let mut s = String::from_str("Failed to ");
        s.append(
            match self.mode {
                Mode::Resign => "resign ",
                Mode::Decrypt => "decrypt ",
                Mode::Encrypt => "encrypt ",
            },
        );
        s.append(file_name);
        if let Mode::Resign = self.mode {
            s.append(": Check if Old SteamID is correct");
        } else {
            s.append(": Check if SteamID is correct");
        }
        proof {
            assert(s@ =~= failure_text(self.mode, file_name@));
        }
        s
    }
}

} // verus!
