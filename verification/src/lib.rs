//! Generation of editor configuration documents from a workspace metadata
//! model: extension recommendations, editor settings, debugger launch
//! configurations and build/test task definitions, all guarded by an
//! "overwrite only what this tool itself generated" sentinel policy.
mod extensions;
mod guard;
mod jsonstr;
mod laws;
mod launch;
mod model;
mod settings;
mod tasks;
mod text;

pub use extensions::create_vscode_extensions_json;
pub use launch::LaunchEntry;
pub use launch::create_vscode_launch_json;
pub use launch::launch_entries;
pub use settings::create_vscode_settings_json;
pub use tasks::Presentation;
pub use tasks::Task;
pub use tasks::create_vscode_tasks_json;
pub use tasks::task_definitions;

pub use guard::AUTOGEN_JSON;
pub use guard::GenError;
pub use guard::open_decision;
pub use model::Package;
pub use model::Target;
pub use model::Workspace;
pub use model::filter_synthetic_members;
pub use text::replace_dashes;
