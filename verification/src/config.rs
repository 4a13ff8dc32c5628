//! The settings of the browser and their defaults.

use vstd::prelude::*;
use vstd::string::*;

verus! {

/// The settings of the browser.
#[derive(Debug)]
pub struct Config {
    /// Key names with the action bound to each, every key bound once.
    pub keymaps: Vec<(String, String)>,
    pub ui: UiConfig,
    pub external_commands: ExternalCommands,
    pub general: GeneralConfig,
}

#[derive(Debug)]
pub struct UiConfig {
    /// Width of the file list in percent of the screen.
    pub panel_width_ratio: u8,
    pub show_borders: bool,
    pub show_hidden_files: bool,
    pub file_list_margin: u16,
}

#[derive(Debug)]
pub struct ExternalCommands {
    pub fuzzy_finder: String,
    pub editor: String,
    pub file_manager: String,
}

#[derive(Debug)]
pub struct GeneralConfig {
    pub default_directory: String,
}

/// The key names and action names of a list of bindings.
pub open spec fn binding_texts(bindings: Seq<(String, String)>) -> Seq<(Seq<char>, Seq<char>)> {
    Seq::new(bindings.len(), |i: int| (bindings[i].0@, bindings[i].1@))
}

/// Every key is bound once.
pub open spec fn keys_bound_once(bindings: Seq<(Seq<char>, Seq<char>)>) -> bool {
    forall|i: int, j: int|
        0 <= i < j < bindings.len() ==> (#[trigger] bindings[i]).0 != (#[trigger] bindings[j]).0
}

/// The bindings of a fresh configuration.
pub open spec fn default_bindings() -> Seq<(Seq<char>, Seq<char>)> {
    seq![
        ("q"@, "quit"@),
        ("k"@, "up"@),
        ("Up"@, "up"@),
        ("j"@, "down"@),
        ("Down"@, "down"@),
        ("h"@, "back"@),
        ("Left"@, "back"@),
        ("l"@, "select"@),
        ("Right"@, "select"@),
        ("Enter"@, "select"@),
        ("Escape"@, "back"@),
        ("r"@, "refresh"@),
        ("F5"@, "refresh"@),
    ]
}

/// Adds the binding of `key` to `action` at the end of the list.
fn bind(keymaps: &mut Vec<(String, String)>, key: &str, action: &str)
    ensures
        binding_texts(final(keymaps)@) == binding_texts(old(keymaps)@).push((key@, action@)),
{
    keymaps.push((String::from_str(key), String::from_str(action)));
    assert(binding_texts(keymaps@) =~= binding_texts(old(keymaps)@).push((key@, action@)));
}

impl Default for UiConfig {
    fn default() -> (r: Self)
        ensures
            r.panel_width_ratio == 50,
            r.show_borders,
            !r.show_hidden_files,
            r.file_list_margin == 1,
    {
        UiConfig {
            panel_width_ratio: 50,
            show_borders: true,
            show_hidden_files: false,
            file_list_margin: 1,
        }
    }
}

impl Default for GeneralConfig {
    fn default() -> (r: Self)
        ensures
            r.default_directory@ == "~"@,
    {
        GeneralConfig { default_directory: String::from_str("~") }
    }
}

impl ExternalCommands {
    /// The external commands of a fresh configuration. `editor` is the
    /// editor that the environment names, if it names one; `vi` stands in
    /// otherwise.
    pub fn with_editor(editor: Option<String>) -> (r: Self)
        ensures
            r.fuzzy_finder@ == "fzf"@,
            r.file_manager@ == "xdg-open"@,
            match editor {
                Some(name) => r.editor == name,
                None => r.editor@ == "vi"@,
            },
    {
        ExternalCommands {
            fuzzy_finder: String::from_str("fzf"),
            editor: match editor {
                Some(name) => name,
                None => String::from_str("vi"),
            },
            file_manager: String::from_str("xdg-open"),
        }
    }
}

/// The default bindings bind every key once.
pub proof fn lemma_default_bindings_bound_once()
    ensures
        keys_bound_once(default_bindings()),
{
    reveal_strlit("q");
    reveal_strlit("k");
    reveal_strlit("Up");
    reveal_strlit("j");
    reveal_strlit("Down");
    reveal_strlit("h");
    reveal_strlit("Left");
    reveal_strlit("l");
    reveal_strlit("Right");
    reveal_strlit("Enter");
    reveal_strlit("Escape");
    reveal_strlit("r");
    reveal_strlit("F5");
    let b = default_bindings();
    assert(b[0].0[0] == 'q' && b[0].0.len() == 1);
    assert(b[1].0[0] == 'k' && b[1].0.len() == 1);
    assert(b[2].0[0] == 'U' && b[2].0.len() == 2);
    assert(b[3].0[0] == 'j' && b[3].0.len() == 1);
    assert(b[4].0[0] == 'D' && b[4].0.len() == 4);
    assert(b[5].0[0] == 'h' && b[5].0.len() == 1);
    assert(b[6].0[0] == 'L' && b[6].0.len() == 4);
    assert(b[7].0[0] == 'l' && b[7].0.len() == 1);
    assert(b[8].0[0] == 'R' && b[8].0.len() == 5);
    assert(b[9].0[0] == 'E' && b[9].0.len() == 5 && b[9].0[1] == 'n');
    assert(b[10].0[0] == 'E' && b[10].0.len() == 6);
    assert(b[11].0[0] == 'r' && b[11].0.len() == 1);
    assert(b[12].0[0] == 'F' && b[12].0.len() == 2);
}

impl Config {
    /// Every key is bound once.
    pub open spec fn wf(&self) -> bool {
        keys_bound_once(binding_texts(self.keymaps@))
    }

    /// A fresh configuration. `editor` is the editor that the environment
    /// names, if it names one.
    pub fn with_editor(editor: Option<String>) -> (r: Self)
        ensures
            binding_texts(r.keymaps@) == default_bindings(),
            r.ui.panel_width_ratio == 50,
            r.ui.show_borders,
            !r.ui.show_hidden_files,
            r.ui.file_list_margin == 1,
            r.external_commands.fuzzy_finder@ == "fzf"@,
            r.external_commands.file_manager@ == "xdg-open"@,
            match editor {
                Some(name) => r.external_commands.editor == name,
                None => r.external_commands.editor@ == "vi"@,
            },
            r.general.default_directory@ == "~"@,
            r.wf(),
    {
        proof {
            lemma_default_bindings_bound_once();
        }
        let mut keymaps: Vec<(String, String)> = Vec::new();
        assert(binding_texts(keymaps@) =~= Seq::empty());
        bind(&mut keymaps, "q", "quit");
        bind(&mut keymaps, "k", "up");
        bind(&mut keymaps, "Up", "up");
        bind(&mut keymaps, "j", "down");
        bind(&mut keymaps, "Down", "down");
        bind(&mut keymaps, "h", "back");
        bind(&mut keymaps, "Left", "back");
        bind(&mut keymaps, "l", "select");
        bind(&mut keymaps, "Right", "select");
        bind(&mut keymaps, "Enter", "select");
        bind(&mut keymaps, "Escape", "back");
        bind(&mut keymaps, "r", "refresh");
        bind(&mut keymaps, "F5", "refresh");
        assert(binding_texts(keymaps@) =~= default_bindings());
        Config {
            keymaps,
            ui: UiConfig::default(),
            external_commands: ExternalCommands::with_editor(editor),
            general: GeneralConfig::default(),
        }
    }
}

} // verus!
