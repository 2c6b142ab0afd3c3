//! The interactive session's state: the picked directories, the three
//! toggles, and the platform family, together with the queries a front end
//! needs — is the pair of directories ready, and what command would run.
//!
//! Directory picks arrive as plain strings (a picker dialog's result,
//! already rendered); the state holds no handle to any widget or dialog.

use vstd::prelude::*;

use crate::invoker::is_existing_directory;
use crate::options::CopyEndpoints;
use crate::options::CopyOptions;
use crate::options::Platform;
use crate::resolver::ResolvedCommand;
use crate::resolver::resolve;

verus! {

/// Turns a directory pick into the text shown for it: the picked path
/// itself, or the empty string when the pick was cancelled.
pub fn get_string_from_buffer(buffer: &Option<String>) -> (r: String)
    ensures
        buffer matches Some(path) ==> r@ == path@,
        buffer is None ==> r@ == Seq::<char>::empty(),
{
    match buffer {
        Some(path) => path.clone(),
        None => String::new(),
    }
}

/// One user's session: where to copy from and to, and how. The buffers hold
/// the latest directory pick; the strings hold the text shown for each
/// endpoint, which doubles as the path handed to the resolver.
pub struct BlaupauseApp {
    /// The latest source pick; `None` when the last dialog was cancelled.
    pub source_buffer: Option<String>,
    /// The source text shown and resolved; a placeholder label at first.
    pub source_string: String,
    /// The latest target pick; `None` when the last dialog was cancelled.
    pub target_buffer: Option<String>,
    /// The target text shown and resolved; a placeholder label at first.
    pub target_string: String,
    /// Preserve ownership, timestamps and permissions.
    pub archive_copy: bool,
    /// Remove surplus target files (one-way sync).
    pub delete_copy: bool,
    /// Whether the host is a Unix-like system; decides the tool grammar and
    /// whether the validate toggle has any effect.
    pub is_unix: bool,
    /// Judge file equality by checksum; only effective on Unix-like hosts.
    pub validate_copy: bool,
}

impl BlaupauseApp {
    /// The three toggles as the resolver's option value.
    pub open spec fn spec_options(self) -> CopyOptions {
        CopyOptions {
            preserve_metadata: self.archive_copy,
            mirror_delete: self.delete_copy,
            validate_content: self.validate_copy,
        }
    }

    /// The platform family the session resolves for.
    pub open spec fn spec_platform(self) -> Platform {
        if self.is_unix {
            Platform::Posix
        } else {
            Platform::Windows
        }
    }

    /// A fresh session: empty picks, placeholder labels, every toggle off,
    /// and a Unix-like platform until [`Self::set_unix`] says otherwise.
    pub fn new() -> (r: Self)
        ensures
            r.source_buffer matches Some(p) && p@ == Seq::<char>::empty(),
            r.source_string@ == "[Source directory]"@,
            r.target_buffer matches Some(p) && p@ == Seq::<char>::empty(),
            r.target_string@ == "[Target directory]"@,
            !r.archive_copy,
            !r.delete_copy,
            r.is_unix,
            !r.validate_copy,
    {
        BlaupauseApp {
            source_buffer: Some(String::new()),
            source_string: "[Source directory]".to_owned(),
            target_buffer: Some(String::new()),
            target_string: "[Target directory]".to_owned(),
            archive_copy: false,
            delete_copy: false,
            is_unix: true,
            validate_copy: false,
        }
    }

    /// Records which platform family the host belongs to.
    pub fn set_unix(&mut self, is_unix: bool)
        ensures
            *final(self) == (BlaupauseApp { is_unix, ..*old(self) }),
    {
        self.is_unix = is_unix;
    }

    /// Takes a source pick: the buffer keeps it, and the shown text becomes
    /// the picked path, or empty when the dialog was cancelled.
    pub fn choose_source(&mut self, picked: Option<String>)
        ensures
            final(self).source_buffer == picked,
            picked matches Some(p) ==> final(self).source_string@ == p@,
            picked is None ==> final(self).source_string@ == Seq::<char>::empty(),
            *final(self) == (BlaupauseApp {
                source_buffer: final(self).source_buffer,
                source_string: final(self).source_string,
                ..*old(self)
            }),
    {
        self.source_string = get_string_from_buffer(&picked);
        self.source_buffer = picked;
    }

    /// Takes a target pick, as [`Self::choose_source`] does for the source.
    pub fn choose_target(&mut self, picked: Option<String>)
        ensures
            final(self).target_buffer == picked,
            picked matches Some(p) ==> final(self).target_string@ == p@,
            picked is None ==> final(self).target_string@ == Seq::<char>::empty(),
            *final(self) == (BlaupauseApp {
                target_buffer: final(self).target_buffer,
                target_string: final(self).target_string,
                ..*old(self)
            }),
    {
        self.target_string = get_string_from_buffer(&picked);
        self.target_buffer = picked;
    }

    /// True exactly when the session may offer the copy action: both shown
    /// paths name existing directories at this instant. Point-in-time only;
    /// the filesystem may change afterwards.
    pub fn ready_to_copy(&self) -> bool {
        is_existing_directory(&self.source_string) && is_existing_directory(&self.target_string)
    }

    /// The command this session would launch now: the platform's tool with
    /// the argv resolved from the current toggles and shown paths.
    pub fn current_command(&self) -> (r: ResolvedCommand)
        ensures
            r.is_resolved_for(
                self.spec_platform(),
                self.spec_options(),
                self.source_string@,
                self.target_string@,
            ),
    {
        let options = CopyOptions {
            preserve_metadata: self.archive_copy,
            mirror_delete: self.delete_copy,
            validate_content: self.validate_copy,
        };
        let endpoints = CopyEndpoints {
            source: self.source_string.clone(),
            target: self.target_string.clone(),
        };
        let platform = if self.is_unix {
            Platform::Posix
        } else {
            Platform::Windows
        };
        resolve(platform, &options, &endpoints)
    }
}

impl Default for BlaupauseApp {
    /// The same fresh session [`BlaupauseApp::new`] yields.
    fn default() -> (r: Self)
        ensures
            r.source_buffer matches Some(p) && p@ == Seq::<char>::empty(),
            r.source_string@ == "[Source directory]"@,
            r.target_buffer matches Some(p) && p@ == Seq::<char>::empty(),
            r.target_string@ == "[Target directory]"@,
            !r.archive_copy,
            !r.delete_copy,
            r.is_unix,
            !r.validate_copy,
    {
        BlaupauseApp::new()
    }
}

} // verus!
