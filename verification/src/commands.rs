//! The `encrypt` and `unlock` commands as sequences of decisions. Each
//! command is a state machine: the caller performs the action it asks for
//! (files, prompts, processes) and hands back what happened as an event.
use vstd::prelude::*;
use crate::cli::{confirms_deletion, is_affirmative};
use crate::config::{law_home_expansion, resolved_path, starts_at_home, Config};
use crate::paths::{absolute_in, absolute_path, is_absolute, system_home_dir};
use crate::launcher::{keepassxc_arguments, KEYFILE_OPTION};

verus! {

/// How a path given as configured comes out of `Config::resolve_path`: itself,
/// or expanded with some home directory.
pub open spec fn resolves_to(configured: Seq<char>, resolved: Seq<char>) -> bool {
    ||| resolved == configured
    ||| starts_at_home(configured) && exists|h: Seq<char>|
        resolved == #[trigger] resolved_path(configured, Some(h))
}

/// Where the `encrypt` command stands.
#[derive(Clone, Copy, PartialEq, Eq, Structural, Debug)]
pub enum EncryptStage {
    /// Waiting to learn whether the input keyfile exists.
    CheckingInput,
    /// Waiting for the configuration.
    LoadingConfig,
    /// Waiting for the encryption of the input to the target.
    Encrypting,
    /// Waiting for the user's answer to the deletion question.
    Asking,
    /// Waiting for the secure deletion of the input.
    Deleting,
    /// Waiting for the configuration, read again.
    Reloading,
    /// Waiting for the updated configuration to be saved.
    Saving,
    /// Done (or stopped).
    Finished,
}

/// What happened when the caller performed the last action.
pub enum EncryptEvent {
    /// Whether the input keyfile exists.
    InputExists(bool),
    /// The configuration was loaded.
    ConfigLoaded(Config),
    /// The input was encrypted to the target.
    Encrypted,
    /// The user answered the deletion question with this line.
    Answered(String),
    /// The input was securely deleted.
    Deleted,
    /// The configuration was saved.
    Saved,
}

/// What the caller is to do next.
#[derive(Debug)]
pub enum EncryptAction {
    /// Check whether the input keyfile exists.
    CheckInput,
    /// Stop: the input keyfile does not exist.
    ReportMissingInput,
    /// Load the configuration.
    LoadConfig,
    /// Encrypt the input keyfile and write it to `target`.
    Encrypt { target: String },
    /// Ask whether to securely delete the input keyfile.
    AskDeletion,
    /// Securely delete the input keyfile.
    DeleteInput,
    /// Load the configuration again.
    ReloadConfig,
    /// Save this configuration.
    SaveConfig(Config),
    /// The command is complete.
    Finish,
    /// The event does not fit the stage; nothing changed.
    Unexpected,
}

/// The stage of the `encrypt` command after `event` in `stage`.
pub open spec fn next_encrypt_stage(stage: EncryptStage, event: EncryptEvent) -> EncryptStage {
    match (stage, event) {
        (EncryptStage::CheckingInput, EncryptEvent::InputExists(exists)) => if exists {
            EncryptStage::LoadingConfig
        } else {
            EncryptStage::Finished
        },
        (EncryptStage::LoadingConfig, EncryptEvent::ConfigLoaded(_)) => EncryptStage::Encrypting,
        (EncryptStage::Encrypting, EncryptEvent::Encrypted) => EncryptStage::Asking,
        (EncryptStage::Asking, EncryptEvent::Answered(answer)) => if is_affirmative(answer@) {
            EncryptStage::Deleting
        } else {
            EncryptStage::Reloading
        },
        (EncryptStage::Deleting, EncryptEvent::Deleted) => EncryptStage::Reloading,
        (EncryptStage::Reloading, EncryptEvent::ConfigLoaded(_)) => EncryptStage::Saving,
        (EncryptStage::Saving, EncryptEvent::Saved) => EncryptStage::Finished,
        _ => stage,
    }
}

/// The place of a stage in the order of the `encrypt` command.
pub open spec fn encrypt_rank(stage: EncryptStage) -> int {
    match stage {
        EncryptStage::CheckingInput => 0,
        EncryptStage::LoadingConfig => 1,
        EncryptStage::Encrypting => 2,
        EncryptStage::Asking => 3,
        EncryptStage::Deleting => 4,
        EncryptStage::Reloading => 5,
        EncryptStage::Saving => 6,
        EncryptStage::Finished => 7,
    }
}

/// The `encrypt` command only moves forward, and each stage is entered only
/// from the one before it on the event that completes that one: nothing is
/// encrypted unless the input exists and the configuration was loaded, the
/// input is deleted only after an answer that says yes, and the configuration
/// is saved only after it was read again.
pub proof fn law_encrypt_command_order(stage: EncryptStage, event: EncryptEvent)
    ensures
        encrypt_rank(next_encrypt_stage(stage, event)) >= encrypt_rank(stage),
        next_encrypt_stage(stage, event) == EncryptStage::LoadingConfig && stage
            != EncryptStage::LoadingConfig ==> stage == EncryptStage::CheckingInput
            && event matches EncryptEvent::InputExists(true),
        next_encrypt_stage(stage, event) == EncryptStage::Encrypting && stage
            != EncryptStage::Encrypting ==> stage == EncryptStage::LoadingConfig
            && event is ConfigLoaded,
        next_encrypt_stage(stage, event) == EncryptStage::Deleting && stage
            != EncryptStage::Deleting ==> stage == EncryptStage::Asking
            && (event matches EncryptEvent::Answered(answer) && is_affirmative(answer@)),
        next_encrypt_stage(stage, event) == EncryptStage::Saving && stage
            != EncryptStage::Saving ==> stage == EncryptStage::Reloading && event is ConfigLoaded,
{
}

/// The `encrypt` command: check the input, find the target, encrypt, offer to
/// delete the input, and record the target in the configuration. The target
/// is made absolute against the working directory, so that the configuration
/// names the file wherever the tool runs later.
pub struct EncryptCommand {
    stage: EncryptStage,
    output: Option<String>,
    working_dir: String,
    target: String,
}

impl EncryptCommand {
    pub closed spec fn stage(&self) -> EncryptStage {
        self.stage
    }

    /// The output path given on the command line.
    pub closed spec fn output_view(&self) -> Option<Seq<char>> {
        match self.output {
            Some(p) => Some(p@),
            None => None,
        }
    }

    /// The working directory that relative paths are taken from.
    pub closed spec fn working_dir_view(&self) -> Seq<char> {
        self.working_dir@
    }

    /// The path the encrypted keyfile is written to, once it is known.
    pub closed spec fn target_view(&self) -> Seq<char> {
        self.target@
    }

    /// Starts the command for the output path given on the command line, in
    /// the working directory `working_dir`; the first action is the check of
    /// the input.
    pub fn start(output: Option<String>, working_dir: String) -> (r: (Self, EncryptAction))
        ensures
            r.0.stage() == EncryptStage::CheckingInput,
            r.0.output_view() == match output {
                Some(p) => Some(p@),
                None => None,
            },
            r.0.working_dir_view() == working_dir@,
            r.0.target_view() == Seq::<char>::empty(),
            r.1 is CheckInput,
    {
        (
            EncryptCommand {
                stage: EncryptStage::CheckingInput,
                output,
                working_dir,
                target: String::new(),
            },
            EncryptAction::CheckInput,
        )
    }

    /// Takes in what happened and answers with the next action.
    pub fn advance(&mut self, event: EncryptEvent) -> (action: EncryptAction)
        ensures
            final(self).stage() == next_encrypt_stage(old(self).stage(), event),
            final(self).output_view() == old(self).output_view(),
            final(self).working_dir_view() == old(self).working_dir_view(),
            match (old(self).stage(), event) {
                (EncryptStage::CheckingInput, EncryptEvent::InputExists(exists)) => if exists {
                    final(self).stage() == EncryptStage::LoadingConfig && action is LoadConfig
                } else {
                    final(self).stage() == EncryptStage::Finished && action is ReportMissingInput
                },
                (EncryptStage::LoadingConfig, EncryptEvent::ConfigLoaded(c)) => {
                    &&& final(self).stage() == EncryptStage::Encrypting
                    &&& action matches EncryptAction::Encrypt { target }
                    &&& action->target@ == final(self).target_view()
                    &&& match old(self).output_view() {
                        Some(p) => final(self).target_view() == absolute_in(
                            p,
                            old(self).working_dir_view(),
                        ),
                        None => exists|t: Seq<char>|
                            #[trigger] resolves_to(c.encrypted_keyfile_path@, t)
                                && final(self).target_view() == absolute_in(
                                t,
                                old(self).working_dir_view(),
                            ),
                    }
                },
                (EncryptStage::Encrypting, EncryptEvent::Encrypted) => {
                    &&& final(self).stage() == EncryptStage::Asking
                    &&& action is AskDeletion
                    &&& final(self).target_view() == old(self).target_view()
                },
                (EncryptStage::Asking, EncryptEvent::Answered(answer)) => {
                    &&& final(self).target_view() == old(self).target_view()
                    &&& if is_affirmative(answer@) {
                        final(self).stage() == EncryptStage::Deleting && action is DeleteInput
                    } else {
                        final(self).stage() == EncryptStage::Reloading && action is ReloadConfig
                    }
                },
                (EncryptStage::Deleting, EncryptEvent::Deleted) => {
                    &&& final(self).stage() == EncryptStage::Reloading
                    &&& action is ReloadConfig
                    &&& final(self).target_view() == old(self).target_view()
                },
                (EncryptStage::Reloading, EncryptEvent::ConfigLoaded(c)) => {
                    &&& final(self).stage() == EncryptStage::Saving
                    &&& action matches EncryptAction::SaveConfig(saved)
                        && saved.encrypted_keyfile_path@ == old(self).target_view()
                        && saved.temp_keyfile_path@ == c.temp_keyfile_path@
                        && saved.keepassxc_binary@ == c.keepassxc_binary@
                    &&& final(self).target_view() == old(self).target_view()
                },
                (EncryptStage::Saving, EncryptEvent::Saved) => final(self).stage()
                    == EncryptStage::Finished && action is Finish,
                (EncryptStage::Finished, _) => final(self).stage() == EncryptStage::Finished
                    && action is Finish,
                _ => {
                    &&& final(self).stage() == old(self).stage()
                    &&& final(self).target_view() == old(self).target_view()
                    &&& action is Unexpected
                },
            },
    {
        match (self.stage, event) {
            (EncryptStage::CheckingInput, EncryptEvent::InputExists(exists)) => {
                if exists {
                    self.stage = EncryptStage::LoadingConfig;
                    EncryptAction::LoadConfig
                } else {
                    self.stage = EncryptStage::Finished;
                    EncryptAction::ReportMissingInput
                }
            },
            (EncryptStage::LoadingConfig, EncryptEvent::ConfigLoaded(c)) => {
                let chosen = c.encryption_target(self.output.clone());
                proof {
                    if self.output is None {
                        lemma_resolve_path_resolves_to(c.encrypted_keyfile_path@, chosen@);
                    }
                }
                let target = absolute_path(chosen.as_str(), self.working_dir.as_str());
                self.target = target.clone();
                self.stage = EncryptStage::Encrypting;
                EncryptAction::Encrypt { target }
            },
            (EncryptStage::Encrypting, EncryptEvent::Encrypted) => {
                self.stage = EncryptStage::Asking;
                EncryptAction::AskDeletion
            },
            (EncryptStage::Asking, EncryptEvent::Answered(answer)) => {
                if confirms_deletion(answer.as_str()) {
                    self.stage = EncryptStage::Deleting;
                    EncryptAction::DeleteInput
                } else {
                    self.stage = EncryptStage::Reloading;
                    EncryptAction::ReloadConfig
                }
            },
            (EncryptStage::Deleting, EncryptEvent::Deleted) => {
                self.stage = EncryptStage::Reloading;
                EncryptAction::ReloadConfig
            },
            (EncryptStage::Reloading, EncryptEvent::ConfigLoaded(c)) => {
                self.stage = EncryptStage::Saving;
                EncryptAction::SaveConfig(
                    Config {
                        encrypted_keyfile_path: self.target.clone(),
                        temp_keyfile_path: c.temp_keyfile_path,
                        keepassxc_binary: c.keepassxc_binary,
                    },
                )
            },
            (EncryptStage::Saving, EncryptEvent::Saved) => {
                self.stage = EncryptStage::Finished;
                EncryptAction::Finish
            },
            (EncryptStage::Finished, _) => EncryptAction::Finish,
            _ => EncryptAction::Unexpected,
        }
    }
}


/// Where the `unlock` command stands.
#[derive(Clone, Copy, PartialEq, Eq, Structural, Debug)]
pub enum UnlockStage {
    /// Waiting for the configuration.
    LoadingConfig,
    /// Waiting to learn whether the encrypted keyfile exists.
    CheckingKeyfile,
    /// Waiting for the Ctrl+C handler to be installed.
    InstallingHandler,
    /// Waiting for the decryption of the keyfile.
    Decrypting,
    /// Waiting for the temporary keyfile to be written.
    WritingTemp,
    /// Waiting for KeePassXC to close.
    Running,
    /// Waiting for the temporary keyfile to be wiped.
    Wiping,
    /// Done (or stopped).
    Finished,
}

/// What happened when the caller performed the last action.
pub enum UnlockEvent {
    /// The configuration was loaded.
    ConfigLoaded(Config),
    /// Whether the encrypted keyfile exists.
    KeyfileExists(bool),
    /// The Ctrl+C handler is installed.
    HandlerInstalled,
    /// The keyfile was decrypted (the caller keeps the bytes).
    Decrypted,
    /// The temporary keyfile was written.
    TempWritten,
    /// KeePassXC has closed.
    KeePassXCClosed,
    /// The temporary keyfile was wiped.
    Wiped,
    /// The last action failed (the caller keeps the error).
    Failed,
}

/// What the caller is to do next.
#[derive(Debug)]
pub enum UnlockAction {
    /// Load the configuration.
    LoadConfig,
    /// Check whether the encrypted keyfile exists at `path`.
    CheckKeyfile { path: String },
    /// Stop: there is no encrypted keyfile at `path`.
    ReportMissingKeyfile { path: String },
    /// Install the Ctrl+C handler.
    InstallInterruptHandler,
    /// Decrypt the encrypted keyfile at `path`.
    Decrypt { path: String },
    /// Write the decrypted keyfile to the temporary keyfile at `path`.
    WriteTempKeyfile { path: String },
    /// Start `binary` with `args` and wait for it to close.
    RunKeePassXC { binary: String, args: Vec<String> },
    /// Wipe the temporary keyfile at `path` (overwrite with zeros, delete).
    WipeTempKeyfile { path: String },
    /// The command is complete.
    Finish,
    /// Stop with the error of the action that failed.
    Abort,
    /// The event does not fit the stage; nothing changed.
    Unexpected,
}

/// Whether the temporary keyfile may be on disk in this stage.
pub open spec fn keyfile_may_exist(stage: UnlockStage) -> bool {
    stage == UnlockStage::WritingTemp || stage == UnlockStage::Running || stage
        == UnlockStage::Wiping
}

/// The stage of the `unlock` command after `event` in `stage`.
pub open spec fn next_unlock_stage(stage: UnlockStage, event: UnlockEvent) -> UnlockStage {
    match (stage, event) {
        (UnlockStage::LoadingConfig, UnlockEvent::ConfigLoaded(_)) => UnlockStage::CheckingKeyfile,
        (UnlockStage::CheckingKeyfile, UnlockEvent::KeyfileExists(exists)) => if exists {
            UnlockStage::InstallingHandler
        } else {
            UnlockStage::Finished
        },
        (UnlockStage::InstallingHandler, UnlockEvent::HandlerInstalled) => UnlockStage::Decrypting,
        (UnlockStage::Decrypting, UnlockEvent::Decrypted) => UnlockStage::WritingTemp,
        (UnlockStage::WritingTemp, UnlockEvent::TempWritten) => UnlockStage::Running,
        (UnlockStage::WritingTemp, UnlockEvent::Failed) => UnlockStage::Wiping,
        (UnlockStage::Running, UnlockEvent::KeePassXCClosed) => UnlockStage::Wiping,
        (UnlockStage::Running, UnlockEvent::Failed) => UnlockStage::Wiping,
        (UnlockStage::Wiping, UnlockEvent::Wiped) => UnlockStage::Finished,
        (UnlockStage::Wiping, _) => UnlockStage::Wiping,
        (UnlockStage::Finished, _) => UnlockStage::Finished,
        (_, UnlockEvent::Failed) => UnlockStage::Finished,
        _ => stage,
    }
}

/// The place of a stage in the order of the `unlock` command.
pub open spec fn unlock_rank(stage: UnlockStage) -> int {
    match stage {
        UnlockStage::LoadingConfig => 0,
        UnlockStage::CheckingKeyfile => 1,
        UnlockStage::InstallingHandler => 2,
        UnlockStage::Decrypting => 3,
        UnlockStage::WritingTemp => 4,
        UnlockStage::Running => 5,
        UnlockStage::Wiping => 6,
        UnlockStage::Finished => 7,
    }
}

/// The `unlock` command only moves forward, and each stage is entered only
/// from the one before it on the event that completes that one: the keyfile
/// is decrypted only once it was found and Ctrl+C is handled, and KeePassXC
/// runs only once the temporary keyfile is written. Once the temporary
/// keyfile may be on disk, the command ends only through its wipe: whether
/// KeePassXC closed or any step failed.
pub proof fn law_unlock_command_order(stage: UnlockStage, event: UnlockEvent)
    ensures
        unlock_rank(next_unlock_stage(stage, event)) >= unlock_rank(stage),
        next_unlock_stage(stage, event) == UnlockStage::InstallingHandler && stage
            != UnlockStage::InstallingHandler ==> stage == UnlockStage::CheckingKeyfile
            && event matches UnlockEvent::KeyfileExists(true),
        next_unlock_stage(stage, event) == UnlockStage::Decrypting && stage
            != UnlockStage::Decrypting ==> stage == UnlockStage::InstallingHandler
            && event is HandlerInstalled,
        next_unlock_stage(stage, event) == UnlockStage::WritingTemp && stage
            != UnlockStage::WritingTemp ==> stage == UnlockStage::Decrypting && event is Decrypted,
        next_unlock_stage(stage, event) == UnlockStage::Running && stage != UnlockStage::Running
            ==> stage == UnlockStage::WritingTemp && event is TempWritten,
        keyfile_may_exist(stage) ==> keyfile_may_exist(next_unlock_stage(stage, event))
            || (stage == UnlockStage::Wiping && event is Wiped),
        (stage == UnlockStage::WritingTemp || stage == UnlockStage::Running) && event is Failed
            ==> next_unlock_stage(stage, event) == UnlockStage::Wiping,
        stage == UnlockStage::Running && event is KeePassXCClosed ==> next_unlock_stage(
            stage,
            event,
        ) == UnlockStage::Wiping,
{
}

/// The `unlock` command: find the keyfiles from the configuration, decrypt
/// the keyfile to the temporary one, run KeePassXC with it, and wipe it.
pub struct UnlockCommand {
    stage: UnlockStage,
    encrypted_path: String,
    temp_path: String,
    binary: String,
    failed: bool,
}

impl UnlockCommand {
    pub closed spec fn stage(&self) -> UnlockStage {
        self.stage
    }

    /// The path of the encrypted keyfile, once the configuration is known.
    pub closed spec fn encrypted_path_view(&self) -> Seq<char> {
        self.encrypted_path@
    }

    /// The path of the temporary keyfile, once the configuration is known.
    pub closed spec fn temp_path_view(&self) -> Seq<char> {
        self.temp_path@
    }

    /// The KeePassXC program, once the configuration is known.
    pub closed spec fn binary_view(&self) -> Seq<char> {
        self.binary@
    }

    /// Whether a step failed after the temporary keyfile may have been
    /// written (the command then ends with `Abort` once the keyfile is wiped).
    pub closed spec fn failed_view(&self) -> bool {
        self.failed
    }

    /// Starts the command; the first action is loading the configuration.
    pub fn start() -> (r: (Self, UnlockAction))
        ensures
            r.0.stage() == UnlockStage::LoadingConfig,
            r.0.encrypted_path_view() == Seq::<char>::empty(),
            r.0.temp_path_view() == Seq::<char>::empty(),
            r.0.binary_view() == Seq::<char>::empty(),
            !r.0.failed_view(),
            r.1 is LoadConfig,
    {
        (
            UnlockCommand {
                stage: UnlockStage::LoadingConfig,
                encrypted_path: String::new(),
                temp_path: String::new(),
                binary: String::new(),
                failed: false,
            },
            UnlockAction::LoadConfig,
        )
    }

    /// Takes in what happened and answers with the next action.
    pub fn advance(&mut self, event: UnlockEvent) -> (action: UnlockAction)
        ensures
            final(self).stage() == next_unlock_stage(old(self).stage(), event),
            final(self).failed_view() == (old(self).failed_view() || ((old(self).stage()
                == UnlockStage::WritingTemp || old(self).stage() == UnlockStage::Running)
                && event is Failed)),
            old(self).stage() != UnlockStage::LoadingConfig ==> {
                &&& final(self).encrypted_path_view() == old(self).encrypted_path_view()
                &&& final(self).temp_path_view() == old(self).temp_path_view()
                &&& final(self).binary_view() == old(self).binary_view()
            },
            match (old(self).stage(), event) {
                (UnlockStage::LoadingConfig, UnlockEvent::ConfigLoaded(c)) => {
                    &&& resolves_to(c.encrypted_keyfile_path@, final(self).encrypted_path_view())
                    &&& resolves_to(c.temp_keyfile_path@, final(self).temp_path_view())
                    &&& exists|h: Option<Seq<char>>|
                        final(self).encrypted_path_view() == #[trigger] resolved_path(
                            c.encrypted_keyfile_path@,
                            h,
                        ) && final(self).temp_path_view() == resolved_path(
                            c.temp_keyfile_path@,
                            h,
                        )
                    &&& final(self).binary_view() == c.keepassxc_binary@
                    &&& action matches UnlockAction::CheckKeyfile { path }
                    &&& action->CheckKeyfile_path@ == final(self).encrypted_path_view()
                },
                (UnlockStage::CheckingKeyfile, UnlockEvent::KeyfileExists(exists)) => if exists {
                    action is InstallInterruptHandler
                } else {
                    &&& action matches UnlockAction::ReportMissingKeyfile { path }
                    &&& action->ReportMissingKeyfile_path@ == old(self).encrypted_path_view()
                },
                (UnlockStage::InstallingHandler, UnlockEvent::HandlerInstalled) => {
                    &&& action matches UnlockAction::Decrypt { path }
                    &&& action->Decrypt_path@ == old(self).encrypted_path_view()
                },
                (UnlockStage::Decrypting, UnlockEvent::Decrypted) => {
                    &&& action matches UnlockAction::WriteTempKeyfile { path }
                    &&& action->WriteTempKeyfile_path@ == old(self).temp_path_view()
                },
                (UnlockStage::WritingTemp, UnlockEvent::TempWritten) => {
                    &&& action matches UnlockAction::RunKeePassXC { binary, args }
                    &&& action->binary@ == old(self).binary_view()
                    &&& action->args@.len() == 2
                    &&& action->args@[0]@ == KEYFILE_OPTION@
                    &&& action->args@[1]@ == old(self).temp_path_view()
                },
                (UnlockStage::WritingTemp, UnlockEvent::Failed) | (
                    UnlockStage::Running,
                    UnlockEvent::Failed,
                ) => {
                    &&& action matches UnlockAction::WipeTempKeyfile { path }
                    &&& action->WipeTempKeyfile_path@ == old(self).temp_path_view()
                },
                (UnlockStage::Running, UnlockEvent::KeePassXCClosed) => {
                    &&& action matches UnlockAction::WipeTempKeyfile { path }
                    &&& action->WipeTempKeyfile_path@ == old(self).temp_path_view()
                },
                (UnlockStage::Wiping, UnlockEvent::Wiped) => if old(self).failed_view() {
                    action is Abort
                } else {
                    action is Finish
                },
                (UnlockStage::Wiping, _) => action is Unexpected,
                (UnlockStage::Finished, _) => action is Finish,
                (_, UnlockEvent::Failed) => action is Abort,
                _ => action is Unexpected,
            },
    {
        match (self.stage, event) {
            (UnlockStage::LoadingConfig, UnlockEvent::ConfigLoaded(c)) => {
                // Both paths are expanded with one reading of the home directory.
                let reported = system_home_dir();
                let home = match &reported {
                    Some(d) => Some(d.home_path()),
                    None => None,
                };
                let encrypted = c.resolve_path_with_home(c.encrypted_keyfile_path.as_str(), home);
                let temp = c.resolve_path_with_home(c.temp_keyfile_path.as_str(), home);
                let ghost h: Option<Seq<char>> = match home {
                    Some(x) => Some(x@),
                    None => None,
                };
                proof {
                    lemma_resolved_path_resolves_to(c.encrypted_keyfile_path@, h);
                    lemma_resolved_path_resolves_to(c.temp_keyfile_path@, h);
                    assert(encrypted@ == resolved_path(c.encrypted_keyfile_path@, h));
                }
                self.encrypted_path = encrypted.clone();
                self.temp_path = temp;
                self.binary = c.keepassxc_binary;
                self.stage = UnlockStage::CheckingKeyfile;
                UnlockAction::CheckKeyfile { path: encrypted }
            },
            (UnlockStage::CheckingKeyfile, UnlockEvent::KeyfileExists(exists)) => {
                if exists {
                    self.stage = UnlockStage::InstallingHandler;
                    UnlockAction::InstallInterruptHandler
                } else {
                    self.stage = UnlockStage::Finished;
                    UnlockAction::ReportMissingKeyfile { path: self.encrypted_path.clone() }
                }
            },
            (UnlockStage::InstallingHandler, UnlockEvent::HandlerInstalled) => {
                self.stage = UnlockStage::Decrypting;
                UnlockAction::Decrypt { path: self.encrypted_path.clone() }
            },
            (UnlockStage::Decrypting, UnlockEvent::Decrypted) => {
                self.stage = UnlockStage::WritingTemp;
                UnlockAction::WriteTempKeyfile { path: self.temp_path.clone() }
            },
            (UnlockStage::WritingTemp, UnlockEvent::TempWritten) => {
                self.stage = UnlockStage::Running;
                UnlockAction::RunKeePassXC {
                    binary: self.binary.clone(),
                    args: keepassxc_arguments(self.temp_path.as_str()),
                }
            },
            (UnlockStage::WritingTemp, UnlockEvent::Failed) | (
                UnlockStage::Running,
                UnlockEvent::Failed,
            ) => {
                self.failed = true;
                self.stage = UnlockStage::Wiping;
                UnlockAction::WipeTempKeyfile { path: self.temp_path.clone() }
            },
            (UnlockStage::Running, UnlockEvent::KeePassXCClosed) => {
                self.stage = UnlockStage::Wiping;
                UnlockAction::WipeTempKeyfile { path: self.temp_path.clone() }
            },
            (UnlockStage::Wiping, UnlockEvent::Wiped) => {
                self.stage = UnlockStage::Finished;
                if self.failed {
                    UnlockAction::Abort
                } else {
                    UnlockAction::Finish
                }
            },
            (UnlockStage::Wiping, _) => UnlockAction::Unexpected,
            (UnlockStage::Finished, _) => UnlockAction::Finish,
            (_, UnlockEvent::Failed) => {
                self.stage = UnlockStage::Finished;
                UnlockAction::Abort
            },
            _ => UnlockAction::Unexpected,
        }
    }
}

/// The `unlock` command expands the two keyfile paths with one home
/// directory (see `UnlockCommand::advance`): so where both are written with
/// `~` and the home directory is absolute, either both stay as written (the
/// home directory is unknown) or neither does; the temporary keyfile is never
/// left at a literal `~` path while the encrypted one is found below the
/// home directory.
pub proof fn law_unlock_expands_paths_together(
    encrypted: Seq<char>,
    temp: Seq<char>,
    home: Option<Seq<char>>,
)
    requires
        starts_at_home(encrypted),
        starts_at_home(temp),
        home matches Some(h) ==> is_absolute(h),
    ensures
        (resolved_path(encrypted, home) == encrypted) == (resolved_path(temp, home) == temp),
{
    if let Some(h) = home {
        law_home_expansion(encrypted, h);
        law_home_expansion(temp, h);
    }
}

/// A path expanded with a known or unknown home directory resolves to its
/// expansion.
proof fn lemma_resolved_path_resolves_to(configured: Seq<char>, home: Option<Seq<char>>)
    ensures
        resolves_to(configured, resolved_path(configured, home)),
{
    if starts_at_home(configured) && home is Some {
        assert(resolved_path(configured, home) == resolved_path(configured, Some(home->0)));
    }
}

/// What `Config::resolve_path` promises, in the words of `resolves_to`.
proof fn lemma_resolve_path_resolves_to(configured: Seq<char>, resolved: Seq<char>)
    requires
        !starts_at_home(configured) ==> resolved == configured,
        starts_at_home(configured) ==> resolved == configured || exists|h: Seq<char>|
            resolved == #[trigger] resolved_path(configured, Some(h)),
    ensures
        resolves_to(configured, resolved),
{
}

} // verus!
