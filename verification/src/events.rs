//! Requests that reach the running tool from outside: tray menu items and a
//! second launch of the program.
use vstd::prelude::*;
use crate::text::{strip_text_prefix, text_equals};

verus! {

/// What a tray menu item asks for.
#[derive(Debug)]
pub enum MenuCommand {
    /// Switch to the transcription model with this id.
    SelectModel(String),
    ShowSettings,
    CancelOperation,
    UnloadModel,
    Quit,
    /// The id is not a menu item of the tool.
    Ignore,
}

/// The prefix of the menu ids that select a model.
pub open spec fn model_select_prefix() -> Seq<char> {
    "model_select:"@
}

/// Whether `c` is the command of the menu item `id`: a model item, whose id
/// starts with `model_select:`, selects the model named by the rest of the
/// id; the four fixed ids name their commands; any other id is ignored.
pub open spec fn is_menu_command(c: MenuCommand, id: Seq<char>) -> bool {
    if model_select_prefix().is_prefix_of(id) {
        c matches MenuCommand::SelectModel(m) && m@ == id.skip(model_select_prefix().len() as int)
    } else if id == "settings"@ {
        c is ShowSettings
    } else if id == "cancel"@ {
        c is CancelOperation
    } else if id == "unload_model"@ {
        c is UnloadModel
    } else if id == "quit"@ {
        c is Quit
    } else {
        c is Ignore
    }
}

/// The command of a tray menu item id.
pub fn menu_command(id: &str) -> (c: MenuCommand)
    ensures
        is_menu_command(c, id@),
{
    match strip_text_prefix(id, "model_select:") {
        Some(model) => MenuCommand::SelectModel(model),
        None => {
            if text_equals(id, "settings") {
                MenuCommand::ShowSettings
            } else if text_equals(id, "cancel") {
                MenuCommand::CancelOperation
            } else if text_equals(id, "unload_model") {
                MenuCommand::UnloadModel
            } else if text_equals(id, "quit") {
                MenuCommand::Quit
            } else {
                MenuCommand::Ignore
            }
        },
    }
}

/// The menu id of the item that selects a model.
pub fn model_menu_id(model: &str) -> (id: String)
    ensures
        id@ == model_select_prefix() + model@,
{
    let mut id = String::from_str("model_select:");
    id.append(model);
    id
}

/// The menu item of a model selects that model.
pub proof fn lemma_model_item_round_trip(c: MenuCommand, model: Seq<char>)
    requires
        is_menu_command(c, model_select_prefix() + model),
    ensures
        c matches MenuCommand::SelectModel(m) && m@ == model,
{
    let id = model_select_prefix() + model;
    assert(id.subrange(0, model_select_prefix().len() as int) =~= model_select_prefix());
    assert(id.skip(model_select_prefix().len() as int) =~= model);
}

/// What a second launch of the program asks the running one to do.
#[derive(Clone, Copy, Debug, PartialEq, Eq, Structural)]
pub enum InstanceRequest {
    /// Start or stop a transcription (`--toggle-transcription`).
    ToggleTranscription,
    /// Cancel the running operation (`--cancel`).
    Cancel,
    /// Bring the main window up.
    ShowWindow,
}

/// Whether some argument is the given flag.
pub open spec fn has_flag(args: Seq<Seq<char>>, flag: Seq<char>) -> bool {
    exists|i: int| 0 <= i < args.len() && #[trigger] args[i] == flag
}

/// The request of a second launch: toggling wins over cancelling, and a
/// launch with neither flag shows the window.
pub open spec fn instance_request_for(args: Seq<Seq<char>>) -> InstanceRequest {
    if has_flag(args, "--toggle-transcription"@) {
        InstanceRequest::ToggleTranscription
    } else if has_flag(args, "--cancel"@) {
        InstanceRequest::Cancel
    } else {
        InstanceRequest::ShowWindow
    }
}

fn contains_flag(args: &Vec<String>, flag: &str) -> (r: bool)
    ensures
        r == has_flag(args@.map_values(|a: String| a@), flag@),
{
    let ghost texts = args@.map_values(|a: String| a@);
    let n: usize = args.len();
    let mut i: usize = 0;
    while i < n
        invariant
            n == args@.len(),
            texts == args@.map_values(|a: String| a@),
            i <= n,
            forall|k: int| 0 <= k < i ==> #[trigger] texts[k] != flag@,
        decreases n - i,
    {
        if text_equals(args[i].as_str(), flag) {
            assert(texts[i as int] == flag@);
            return true;
        }
        i = i + 1;
    }
    false
}

/// The request that the arguments of a second launch carry.
pub fn instance_request(args: &Vec<String>) -> (r: InstanceRequest)
    ensures
        r == instance_request_for(args@.map_values(|a: String| a@)),
{
    if contains_flag(args, "--toggle-transcription") {
        InstanceRequest::ToggleTranscription
    } else if contains_flag(args, "--cancel") {
        InstanceRequest::Cancel
    } else {
        InstanceRequest::ShowWindow
    }
}

} // verus!
