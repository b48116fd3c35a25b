//! A verified core for a provisioning task runner.

mod strutil;
mod resolver;
mod radix;
mod config;
mod fsmodel;
mod actions;
mod laws;

pub use strutil::str_eq;
pub use resolver::{get_pre_glob_path, copy_destination, pre_glob, star_free, dest_of, strip_once};
pub use radix::{parse_u32_radix, is_valid_number, number_val};
pub use config::{
    FieldValue, FieldV, TaskFields, TaskFieldsV, Task, TaskKind, TaskV, TaskKindV, ConfigError,
    build_task, build_task_spec, task_res_view, build_argv, should_cleanup, should_copy_file,
};
pub use fsmodel::{EntryData, EntryDataV, Entry, EntryV, FsModel, DEFAULT_DIR_MODE, DEFAULT_FILE_MODE, DEFAULT_ID};
pub use laws::{
    lemma_copy_if_absent_idempotent, lemma_copy_overwrite_converges, lemma_mkdir_idempotent,
    lemma_mkfile_idempotent, lemma_chmod_list_sets_modes, lemma_chown_list_identities,
    lemma_chown_uid_only_preserves_gid, lemma_unknown_action_skipped,
};
pub use actions::{
    FsError, ResolvedTask, fresh_dir, mkdir_effect, mkfile_effect, copy_match_effect,
    copy_list_effect, move_effect, chmod_one_effect, chmod_list_effect, chown_one_effect,
    chown_list_effect, task_effect, run_effect, err_of, apply_mkdir, apply_mkfile,
    apply_copy_match, apply_copy_list, apply_move, apply_chmod_one, apply_chmod_list,
    apply_chown_one, apply_chown_list, exec_task, run_tasks, apply_cleanup,
};
