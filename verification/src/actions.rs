use vstd::prelude::*;
use crate::mode::Mode;
use crate::text::str_eq;

verus! {

/// Actions available in every mode.
#[derive(Clone, Copy, Debug, PartialEq, Eq, Structural)]
pub enum CommonActionSchema {
    Quit,
    ShowHelp,
}

impl CommonActionSchema {
    /// The identifier that bindings name the action by.
    pub open spec fn id_of(self) -> Seq<char> {
        match self {
            CommonActionSchema::Quit => "quit"@,
            CommonActionSchema::ShowHelp => "show_help"@,
        }
    }

    /// The short name shown in the help.
    pub open spec fn name_of(self) -> Seq<char> {
        match self {
            CommonActionSchema::Quit => "quit"@,
            CommonActionSchema::ShowHelp => "help"@,
        }
    }

    /// What the action does, in a few words.
    pub open spec fn description_of(self) -> Seq<char> {
        match self {
            CommonActionSchema::Quit => "quit the application"@,
            CommonActionSchema::ShowHelp => "display help information"@,
        }
    }

    /// Whether the action needs a focused message.
    pub open spec fn requires_focus_of(self) -> bool {
        match self {
            CommonActionSchema::Quit => false,
            CommonActionSchema::ShowHelp => false,
        }
    }

    /// The identifier that bindings name the action by.
    pub fn id(&self) -> (r: &'static str)
        ensures
            r@ == self.id_of(),
    {
        match self {
            CommonActionSchema::Quit => "quit",
            CommonActionSchema::ShowHelp => "show_help",
        }
    }

    /// The short name shown in the help.
    pub fn name(&self) -> (r: &'static str)
        ensures
            r@ == self.name_of(),
    {
        match self {
            CommonActionSchema::Quit => "quit",
            CommonActionSchema::ShowHelp => "help",
        }
    }

    /// What the action does, in a few words.
    pub fn description(&self) -> (r: &'static str)
        ensures
            r@ == self.description_of(),
    {
        match self {
            CommonActionSchema::Quit => "quit the application",
            CommonActionSchema::ShowHelp => "display help information",
        }
    }

    /// Whether the action needs a focused message.
    pub fn requires_focus(&self) -> (r: bool)
        ensures
            r == self.requires_focus_of(),
    {
        false
    }

    /// Every schema, in declaration order.
    pub fn iter_all() -> (r: Vec<CommonActionSchema>)
        ensures
            r@ == Self::all_schemas(),
    {
        vec![CommonActionSchema::Quit, CommonActionSchema::ShowHelp]
    }

    /// Every schema, in declaration order.
    pub open spec fn all_schemas() -> Seq<CommonActionSchema> {
        seq![CommonActionSchema::Quit, CommonActionSchema::ShowHelp]
    }
}

/// Actions of normal mode.
#[derive(Clone, Copy, Debug, PartialEq, Eq, Structural)]
pub enum NormalModeActionSchema {
    ScrollUp,
    ScrollDown,
    ScrollHalfPageUp,
    ScrollHalfPageDown,
    ScrollPageUp,
    ScrollPageDown,
    ScrollToTop,
    ScrollToBottom,
    ScrollToPreviousMessage,
    ScrollToNextMessage,
    EnterEditMode,
    EnterAppendMode,
    EnterCommandPalette,
    DeleteMessage,
    ForkBranch,
    HideMessage,
    ShowMessage,
    NextBranch,
    PrevBranch,
    NextTree,
    PrevTree,
}

/// The actions that NormalModeActionSchema describes.
#[derive(Clone, Copy, Debug, PartialEq, Eq, Structural)]
pub enum NormalModeAction {
    ScrollUp,
    ScrollDown,
    ScrollHalfPageUp,
    ScrollHalfPageDown,
    ScrollPageUp,
    ScrollPageDown,
    ScrollToTop,
    ScrollToBottom,
    ScrollToPreviousMessage,
    ScrollToNextMessage,
    EnterEditMode,
    EnterAppendMode,
    EnterCommandPalette,
    DeleteMessage,
    ForkBranch,
    HideMessage,
    ShowMessage,
    NextBranch,
    PrevBranch,
    NextTree,
    PrevTree,
}

impl NormalModeActionSchema {
    /// The identifier that bindings name the action by.
    pub open spec fn id_of(self) -> Seq<char> {
        match self {
            NormalModeActionSchema::ScrollUp => "scroll_up"@,
            NormalModeActionSchema::ScrollDown => "scroll_down"@,
            NormalModeActionSchema::ScrollHalfPageUp => "scroll_half_page_up"@,
            NormalModeActionSchema::ScrollHalfPageDown => "scroll_half_page_down"@,
            NormalModeActionSchema::ScrollPageUp => "scroll_page_up"@,
            NormalModeActionSchema::ScrollPageDown => "scroll_page_down"@,
            NormalModeActionSchema::ScrollToTop => "scroll_to_top"@,
            NormalModeActionSchema::ScrollToBottom => "scroll_to_bottom"@,
            NormalModeActionSchema::ScrollToPreviousMessage => "scroll_to_previous_message"@,
            NormalModeActionSchema::ScrollToNextMessage => "scroll_to_next_message"@,
            NormalModeActionSchema::EnterEditMode => "edit_message"@,
            NormalModeActionSchema::EnterAppendMode => "append_message"@,
            NormalModeActionSchema::EnterCommandPalette => "command_palette"@,
            NormalModeActionSchema::DeleteMessage => "delete_message"@,
            NormalModeActionSchema::ForkBranch => "fork_branch"@,
            NormalModeActionSchema::HideMessage => "hide_message"@,
            NormalModeActionSchema::ShowMessage => "show_message"@,
            NormalModeActionSchema::NextBranch => "next_branch"@,
            NormalModeActionSchema::PrevBranch => "prev_branch"@,
            NormalModeActionSchema::NextTree => "next_tree"@,
            NormalModeActionSchema::PrevTree => "prev_tree"@,
        }
    }

    /// The short name shown in the help.
    pub open spec fn name_of(self) -> Seq<char> {
        match self {
            NormalModeActionSchema::ScrollUp => "up"@,
            NormalModeActionSchema::ScrollDown => "down"@,
            NormalModeActionSchema::ScrollHalfPageUp => "half page up"@,
            NormalModeActionSchema::ScrollHalfPageDown => "half page down"@,
            NormalModeActionSchema::ScrollPageUp => "page up"@,
            NormalModeActionSchema::ScrollPageDown => "page down"@,
            NormalModeActionSchema::ScrollToTop => "top"@,
            NormalModeActionSchema::ScrollToBottom => "bottom"@,
            NormalModeActionSchema::ScrollToPreviousMessage => "previous message"@,
            NormalModeActionSchema::ScrollToNextMessage => "next message"@,
            NormalModeActionSchema::EnterEditMode => "edit"@,
            NormalModeActionSchema::EnterAppendMode => "append"@,
            NormalModeActionSchema::EnterCommandPalette => "command palette"@,
            NormalModeActionSchema::DeleteMessage => "delete"@,
            NormalModeActionSchema::ForkBranch => "fork"@,
            NormalModeActionSchema::HideMessage => "hide"@,
            NormalModeActionSchema::ShowMessage => "show"@,
            NormalModeActionSchema::NextBranch => "next branch"@,
            NormalModeActionSchema::PrevBranch => "previous branch"@,
            NormalModeActionSchema::NextTree => "next tree"@,
            NormalModeActionSchema::PrevTree => "previous tree"@,
        }
    }

    /// What the action does, in a few words.
    pub open spec fn description_of(self) -> Seq<char> {
        match self {
            NormalModeActionSchema::ScrollUp => "scroll up one line"@,
            NormalModeActionSchema::ScrollDown => "scroll down one line"@,
            NormalModeActionSchema::ScrollHalfPageUp => "scroll half page up"@,
            NormalModeActionSchema::ScrollHalfPageDown => "scroll half page down"@,
            NormalModeActionSchema::ScrollPageUp => "scroll page up"@,
            NormalModeActionSchema::ScrollPageDown => "scroll page down"@,
            NormalModeActionSchema::ScrollToTop => "scroll to top"@,
            NormalModeActionSchema::ScrollToBottom => "scroll to bottom"@,
            NormalModeActionSchema::ScrollToPreviousMessage => "scroll to previous message"@,
            NormalModeActionSchema::ScrollToNextMessage => "scroll to next message"@,
            NormalModeActionSchema::EnterEditMode => "edit the currently focused message"@,
            NormalModeActionSchema::EnterAppendMode => "add a new message to the conversation"@,
            NormalModeActionSchema::EnterCommandPalette => "open the command palette"@,
            NormalModeActionSchema::DeleteMessage => "delete the currently focused message"@,
            NormalModeActionSchema::ForkBranch => "create a new branch from the current message"@,
            NormalModeActionSchema::HideMessage => "exclude the currently focused message from llm context"@,
            NormalModeActionSchema::ShowMessage => "include the message in llm context"@,
            NormalModeActionSchema::NextBranch => "switch to the next branch"@,
            NormalModeActionSchema::PrevBranch => "switch to the previous branch"@,
            NormalModeActionSchema::NextTree => "switch to the next tree"@,
            NormalModeActionSchema::PrevTree => "switch to the previous tree"@,
        }
    }

    /// Whether the action needs a focused message.
    pub open spec fn requires_focus_of(self) -> bool {
        match self {
            NormalModeActionSchema::ScrollUp => false,
            NormalModeActionSchema::ScrollDown => false,
            NormalModeActionSchema::ScrollHalfPageUp => false,
            NormalModeActionSchema::ScrollHalfPageDown => false,
            NormalModeActionSchema::ScrollPageUp => false,
            NormalModeActionSchema::ScrollPageDown => false,
            NormalModeActionSchema::ScrollToTop => false,
            NormalModeActionSchema::ScrollToBottom => false,
            NormalModeActionSchema::ScrollToPreviousMessage => true,
            NormalModeActionSchema::ScrollToNextMessage => true,
            NormalModeActionSchema::EnterEditMode => true,
            NormalModeActionSchema::EnterAppendMode => false,
            NormalModeActionSchema::EnterCommandPalette => false,
            NormalModeActionSchema::DeleteMessage => true,
            NormalModeActionSchema::ForkBranch => true,
            NormalModeActionSchema::HideMessage => true,
            NormalModeActionSchema::ShowMessage => true,
            NormalModeActionSchema::NextBranch => false,
            NormalModeActionSchema::PrevBranch => false,
            NormalModeActionSchema::NextTree => false,
            NormalModeActionSchema::PrevTree => false,
        }
    }

    /// The identifier that bindings name the action by.
    pub fn id(&self) -> (r: &'static str)
        ensures
            r@ == self.id_of(),
    {
        match self {
            NormalModeActionSchema::ScrollUp => "scroll_up",
            NormalModeActionSchema::ScrollDown => "scroll_down",
            NormalModeActionSchema::ScrollHalfPageUp => "scroll_half_page_up",
            NormalModeActionSchema::ScrollHalfPageDown => "scroll_half_page_down",
            NormalModeActionSchema::ScrollPageUp => "scroll_page_up",
            NormalModeActionSchema::ScrollPageDown => "scroll_page_down",
            NormalModeActionSchema::ScrollToTop => "scroll_to_top",
            NormalModeActionSchema::ScrollToBottom => "scroll_to_bottom",
            NormalModeActionSchema::ScrollToPreviousMessage => "scroll_to_previous_message",
            NormalModeActionSchema::ScrollToNextMessage => "scroll_to_next_message",
            NormalModeActionSchema::EnterEditMode => "edit_message",
            NormalModeActionSchema::EnterAppendMode => "append_message",
            NormalModeActionSchema::EnterCommandPalette => "command_palette",
            NormalModeActionSchema::DeleteMessage => "delete_message",
            NormalModeActionSchema::ForkBranch => "fork_branch",
            NormalModeActionSchema::HideMessage => "hide_message",
            NormalModeActionSchema::ShowMessage => "show_message",
            NormalModeActionSchema::NextBranch => "next_branch",
            NormalModeActionSchema::PrevBranch => "prev_branch",
            NormalModeActionSchema::NextTree => "next_tree",
            NormalModeActionSchema::PrevTree => "prev_tree",
        }
    }

    /// The short name shown in the help.
    pub fn name(&self) -> (r: &'static str)
        ensures
            r@ == self.name_of(),
    {
        match self {
            NormalModeActionSchema::ScrollUp => "up",
            NormalModeActionSchema::ScrollDown => "down",
            NormalModeActionSchema::ScrollHalfPageUp => "half page up",
            NormalModeActionSchema::ScrollHalfPageDown => "half page down",
            NormalModeActionSchema::ScrollPageUp => "page up",
            NormalModeActionSchema::ScrollPageDown => "page down",
            NormalModeActionSchema::ScrollToTop => "top",
            NormalModeActionSchema::ScrollToBottom => "bottom",
            NormalModeActionSchema::ScrollToPreviousMessage => "previous message",
            NormalModeActionSchema::ScrollToNextMessage => "next message",
            NormalModeActionSchema::EnterEditMode => "edit",
            NormalModeActionSchema::EnterAppendMode => "append",
            NormalModeActionSchema::EnterCommandPalette => "command palette",
            NormalModeActionSchema::DeleteMessage => "delete",
            NormalModeActionSchema::ForkBranch => "fork",
            NormalModeActionSchema::HideMessage => "hide",
            NormalModeActionSchema::ShowMessage => "show",
            NormalModeActionSchema::NextBranch => "next branch",
            NormalModeActionSchema::PrevBranch => "previous branch",
            NormalModeActionSchema::NextTree => "next tree",
            NormalModeActionSchema::PrevTree => "previous tree",
        }
    }

    /// What the action does, in a few words.
    pub fn description(&self) -> (r: &'static str)
        ensures
            r@ == self.description_of(),
    {
        match self {
            NormalModeActionSchema::ScrollUp => "scroll up one line",
            NormalModeActionSchema::ScrollDown => "scroll down one line",
            NormalModeActionSchema::ScrollHalfPageUp => "scroll half page up",
            NormalModeActionSchema::ScrollHalfPageDown => "scroll half page down",
            NormalModeActionSchema::ScrollPageUp => "scroll page up",
            NormalModeActionSchema::ScrollPageDown => "scroll page down",
            NormalModeActionSchema::ScrollToTop => "scroll to top",
            NormalModeActionSchema::ScrollToBottom => "scroll to bottom",
            NormalModeActionSchema::ScrollToPreviousMessage => "scroll to previous message",
            NormalModeActionSchema::ScrollToNextMessage => "scroll to next message",
            NormalModeActionSchema::EnterEditMode => "edit the currently focused message",
            NormalModeActionSchema::EnterAppendMode => "add a new message to the conversation",
            NormalModeActionSchema::EnterCommandPalette => "open the command palette",
            NormalModeActionSchema::DeleteMessage => "delete the currently focused message",
            NormalModeActionSchema::ForkBranch => "create a new branch from the current message",
            NormalModeActionSchema::HideMessage => "exclude the currently focused message from llm context",
            NormalModeActionSchema::ShowMessage => "include the message in llm context",
            NormalModeActionSchema::NextBranch => "switch to the next branch",
            NormalModeActionSchema::PrevBranch => "switch to the previous branch",
            NormalModeActionSchema::NextTree => "switch to the next tree",
            NormalModeActionSchema::PrevTree => "switch to the previous tree",
        }
    }

    /// Whether the action needs a focused message.
    pub fn requires_focus(&self) -> (r: bool)
        ensures
            r == self.requires_focus_of(),
    {
        match self {
            NormalModeActionSchema::ScrollUp => false,
            NormalModeActionSchema::ScrollDown => false,
            NormalModeActionSchema::ScrollHalfPageUp => false,
            NormalModeActionSchema::ScrollHalfPageDown => false,
            NormalModeActionSchema::ScrollPageUp => false,
            NormalModeActionSchema::ScrollPageDown => false,
            NormalModeActionSchema::ScrollToTop => false,
            NormalModeActionSchema::ScrollToBottom => false,
            NormalModeActionSchema::ScrollToPreviousMessage => true,
            NormalModeActionSchema::ScrollToNextMessage => true,
            NormalModeActionSchema::EnterEditMode => true,
            NormalModeActionSchema::EnterAppendMode => false,
            NormalModeActionSchema::EnterCommandPalette => false,
            NormalModeActionSchema::DeleteMessage => true,
            NormalModeActionSchema::ForkBranch => true,
            NormalModeActionSchema::HideMessage => true,
            NormalModeActionSchema::ShowMessage => true,
            NormalModeActionSchema::NextBranch => false,
            NormalModeActionSchema::PrevBranch => false,
            NormalModeActionSchema::NextTree => false,
            NormalModeActionSchema::PrevTree => false,
        }
    }

    /// The action this schema describes.
    pub open spec fn action_of(self) -> NormalModeAction {
        match self {
            NormalModeActionSchema::ScrollUp => NormalModeAction::ScrollUp,
            NormalModeActionSchema::ScrollDown => NormalModeAction::ScrollDown,
            NormalModeActionSchema::ScrollHalfPageUp => NormalModeAction::ScrollHalfPageUp,
            NormalModeActionSchema::ScrollHalfPageDown => NormalModeAction::ScrollHalfPageDown,
            NormalModeActionSchema::ScrollPageUp => NormalModeAction::ScrollPageUp,
            NormalModeActionSchema::ScrollPageDown => NormalModeAction::ScrollPageDown,
            NormalModeActionSchema::ScrollToTop => NormalModeAction::ScrollToTop,
            NormalModeActionSchema::ScrollToBottom => NormalModeAction::ScrollToBottom,
            NormalModeActionSchema::ScrollToPreviousMessage => NormalModeAction::ScrollToPreviousMessage,
            NormalModeActionSchema::ScrollToNextMessage => NormalModeAction::ScrollToNextMessage,
            NormalModeActionSchema::EnterEditMode => NormalModeAction::EnterEditMode,
            NormalModeActionSchema::EnterAppendMode => NormalModeAction::EnterAppendMode,
            NormalModeActionSchema::EnterCommandPalette => NormalModeAction::EnterCommandPalette,
            NormalModeActionSchema::DeleteMessage => NormalModeAction::DeleteMessage,
            NormalModeActionSchema::ForkBranch => NormalModeAction::ForkBranch,
            NormalModeActionSchema::HideMessage => NormalModeAction::HideMessage,
            NormalModeActionSchema::ShowMessage => NormalModeAction::ShowMessage,
            NormalModeActionSchema::NextBranch => NormalModeAction::NextBranch,
            NormalModeActionSchema::PrevBranch => NormalModeAction::PrevBranch,
            NormalModeActionSchema::NextTree => NormalModeAction::NextTree,
            NormalModeActionSchema::PrevTree => NormalModeAction::PrevTree,
        }
    }

    /// The action the schema describes.
    pub fn to_action(&self) -> (r: NormalModeAction)
        ensures
            r == self.action_of(),
    {
        match self {
            NormalModeActionSchema::ScrollUp => NormalModeAction::ScrollUp,
            NormalModeActionSchema::ScrollDown => NormalModeAction::ScrollDown,
            NormalModeActionSchema::ScrollHalfPageUp => NormalModeAction::ScrollHalfPageUp,
            NormalModeActionSchema::ScrollHalfPageDown => NormalModeAction::ScrollHalfPageDown,
            NormalModeActionSchema::ScrollPageUp => NormalModeAction::ScrollPageUp,
            NormalModeActionSchema::ScrollPageDown => NormalModeAction::ScrollPageDown,
            NormalModeActionSchema::ScrollToTop => NormalModeAction::ScrollToTop,
            NormalModeActionSchema::ScrollToBottom => NormalModeAction::ScrollToBottom,
            NormalModeActionSchema::ScrollToPreviousMessage => NormalModeAction::ScrollToPreviousMessage,
            NormalModeActionSchema::ScrollToNextMessage => NormalModeAction::ScrollToNextMessage,
            NormalModeActionSchema::EnterEditMode => NormalModeAction::EnterEditMode,
            NormalModeActionSchema::EnterAppendMode => NormalModeAction::EnterAppendMode,
            NormalModeActionSchema::EnterCommandPalette => NormalModeAction::EnterCommandPalette,
            NormalModeActionSchema::DeleteMessage => NormalModeAction::DeleteMessage,
            NormalModeActionSchema::ForkBranch => NormalModeAction::ForkBranch,
            NormalModeActionSchema::HideMessage => NormalModeAction::HideMessage,
            NormalModeActionSchema::ShowMessage => NormalModeAction::ShowMessage,
            NormalModeActionSchema::NextBranch => NormalModeAction::NextBranch,
            NormalModeActionSchema::PrevBranch => NormalModeAction::PrevBranch,
            NormalModeActionSchema::NextTree => NormalModeAction::NextTree,
            NormalModeActionSchema::PrevTree => NormalModeAction::PrevTree,
        }
    }

    /// Every schema, in declaration order.
    pub fn iter_all() -> (r: Vec<NormalModeActionSchema>)
        ensures
            r@ == Self::all_schemas(),
    {
        vec![NormalModeActionSchema::ScrollUp, NormalModeActionSchema::ScrollDown, NormalModeActionSchema::ScrollHalfPageUp, NormalModeActionSchema::ScrollHalfPageDown, NormalModeActionSchema::ScrollPageUp, NormalModeActionSchema::ScrollPageDown, NormalModeActionSchema::ScrollToTop, NormalModeActionSchema::ScrollToBottom, NormalModeActionSchema::ScrollToPreviousMessage, NormalModeActionSchema::ScrollToNextMessage, NormalModeActionSchema::EnterEditMode, NormalModeActionSchema::EnterAppendMode, NormalModeActionSchema::EnterCommandPalette, NormalModeActionSchema::DeleteMessage, NormalModeActionSchema::ForkBranch, NormalModeActionSchema::HideMessage, NormalModeActionSchema::ShowMessage, NormalModeActionSchema::NextBranch, NormalModeActionSchema::PrevBranch, NormalModeActionSchema::NextTree, NormalModeActionSchema::PrevTree]
    }

    /// Every schema, in declaration order.
    pub open spec fn all_schemas() -> Seq<NormalModeActionSchema> {
        seq![NormalModeActionSchema::ScrollUp, NormalModeActionSchema::ScrollDown, NormalModeActionSchema::ScrollHalfPageUp, NormalModeActionSchema::ScrollHalfPageDown, NormalModeActionSchema::ScrollPageUp, NormalModeActionSchema::ScrollPageDown, NormalModeActionSchema::ScrollToTop, NormalModeActionSchema::ScrollToBottom, NormalModeActionSchema::ScrollToPreviousMessage, NormalModeActionSchema::ScrollToNextMessage, NormalModeActionSchema::EnterEditMode, NormalModeActionSchema::EnterAppendMode, NormalModeActionSchema::EnterCommandPalette, NormalModeActionSchema::DeleteMessage, NormalModeActionSchema::ForkBranch, NormalModeActionSchema::HideMessage, NormalModeActionSchema::ShowMessage, NormalModeActionSchema::NextBranch, NormalModeActionSchema::PrevBranch, NormalModeActionSchema::NextTree, NormalModeActionSchema::PrevTree]
    }
}

/// Actions of edit mode.
#[derive(Clone, Copy, Debug, PartialEq, Eq, Structural)]
pub enum EditModeActionSchema {
    DeleteChar,
    DeleteNextChar,
    InsertNewline,
    DeleteLineByEnd,
    DeleteLineByHead,
    DeleteWord,
    DeleteNextWord,
    Undo,
    Redo,
    Copy,
    Cut,
    Paste,
    SelectAll,
    SelectForward,
    SelectBack,
    SelectUp,
    SelectDown,
    SelectWordForward,
    SelectWordBack,
    SelectToEnd,
    SelectToHead,
    MoveCursorForward,
    MoveCursorBack,
    MoveCursorUp,
    MoveCursorDown,
    MoveCursorWordForward,
    MoveCursorWordEnd,
    MoveCursorWordBack,
    MoveCursorParagraphForward,
    MoveCursorParagraphBack,
    MoveCursorEnd,
    MoveCursorHead,
    MoveCursorTop,
    MoveCursorBottom,
    MoveCursorInViewport,
    ExitCurrentMode,
    SubmitMessage,
}

/// The actions that EditModeActionSchema describes.
#[derive(Clone, Copy, Debug, PartialEq, Eq, Structural)]
pub enum EditModeAction {
    DeleteChar,
    DeleteNextChar,
    InsertNewline,
    DeleteLineByEnd,
    DeleteLineByHead,
    DeleteWord,
    DeleteNextWord,
    Undo,
    Redo,
    Copy,
    Cut,
    Paste,
    SelectAll,
    SelectForward,
    SelectBack,
    SelectUp,
    SelectDown,
    SelectWordForward,
    SelectWordBack,
    SelectToEnd,
    SelectToHead,
    MoveCursorForward,
    MoveCursorBack,
    MoveCursorUp,
    MoveCursorDown,
    MoveCursorWordForward,
    MoveCursorWordEnd,
    MoveCursorWordBack,
    MoveCursorParagraphForward,
    MoveCursorParagraphBack,
    MoveCursorEnd,
    MoveCursorHead,
    MoveCursorTop,
    MoveCursorBottom,
    MoveCursorInViewport,
    ExitCurrentMode,
    SubmitMessage,
}

impl EditModeActionSchema {
    /// The identifier that bindings name the action by.
    pub open spec fn id_of(self) -> Seq<char> {
        match self {
            EditModeActionSchema::DeleteChar => "delete_char"@,
            EditModeActionSchema::DeleteNextChar => "delete_next_char"@,
            EditModeActionSchema::InsertNewline => "insert_newline"@,
            EditModeActionSchema::DeleteLineByEnd => "delete_line_by_end"@,
            EditModeActionSchema::DeleteLineByHead => "delete_line_by_head"@,
            EditModeActionSchema::DeleteWord => "delete_word"@,
            EditModeActionSchema::DeleteNextWord => "delete_next_word"@,
            EditModeActionSchema::Undo => "undo"@,
            EditModeActionSchema::Redo => "redo"@,
            EditModeActionSchema::Copy => "copy"@,
            EditModeActionSchema::Cut => "cut"@,
            EditModeActionSchema::Paste => "paste"@,
            EditModeActionSchema::SelectAll => "select_all"@,
            EditModeActionSchema::SelectForward => "select_forward"@,
            EditModeActionSchema::SelectBack => "select_back"@,
            EditModeActionSchema::SelectUp => "select_up"@,
            EditModeActionSchema::SelectDown => "select_down"@,
            EditModeActionSchema::SelectWordForward => "select_word_forward"@,
            EditModeActionSchema::SelectWordBack => "select_word_back"@,
            EditModeActionSchema::SelectToEnd => "select_to_end"@,
            EditModeActionSchema::SelectToHead => "select_to_head"@,
            EditModeActionSchema::MoveCursorForward => "move_cursor_forward"@,
            EditModeActionSchema::MoveCursorBack => "move_cursor_back"@,
            EditModeActionSchema::MoveCursorUp => "move_cursor_up"@,
            EditModeActionSchema::MoveCursorDown => "move_cursor_down"@,
            EditModeActionSchema::MoveCursorWordForward => "move_cursor_word_forward"@,
            EditModeActionSchema::MoveCursorWordEnd => "move_cursor_word_end"@,
            EditModeActionSchema::MoveCursorWordBack => "move_cursor_word_back"@,
            EditModeActionSchema::MoveCursorParagraphForward => "move_cursor_paragraph_forward"@,
            EditModeActionSchema::MoveCursorParagraphBack => "move_cursor_paragraph_back"@,
            EditModeActionSchema::MoveCursorEnd => "move_cursor_end"@,
            EditModeActionSchema::MoveCursorHead => "move_cursor_head"@,
            EditModeActionSchema::MoveCursorTop => "move_cursor_top"@,
            EditModeActionSchema::MoveCursorBottom => "move_cursor_bottom"@,
            EditModeActionSchema::MoveCursorInViewport => "move_cursor_in_viewport"@,
            EditModeActionSchema::ExitCurrentMode => "exit_mode"@,
            EditModeActionSchema::SubmitMessage => "submit_message"@,
        }
    }

    /// The short name shown in the help.
    pub open spec fn name_of(self) -> Seq<char> {
        match self {
            EditModeActionSchema::DeleteChar => "delete char"@,
            EditModeActionSchema::DeleteNextChar => "delete next char"@,
            EditModeActionSchema::InsertNewline => "newline"@,
            EditModeActionSchema::DeleteLineByEnd => "delete to end"@,
            EditModeActionSchema::DeleteLineByHead => "delete to head"@,
            EditModeActionSchema::DeleteWord => "delete word"@,
            EditModeActionSchema::DeleteNextWord => "delete next word"@,
            EditModeActionSchema::Undo => "undo"@,
            EditModeActionSchema::Redo => "redo"@,
            EditModeActionSchema::Copy => "copy"@,
            EditModeActionSchema::Cut => "cut"@,
            EditModeActionSchema::Paste => "paste"@,
            EditModeActionSchema::SelectAll => "select all"@,
            EditModeActionSchema::SelectForward => "select forward"@,
            EditModeActionSchema::SelectBack => "select back"@,
            EditModeActionSchema::SelectUp => "select up"@,
            EditModeActionSchema::SelectDown => "select down"@,
            EditModeActionSchema::SelectWordForward => "select word forward"@,
            EditModeActionSchema::SelectWordBack => "select word back"@,
            EditModeActionSchema::SelectToEnd => "select to end"@,
            EditModeActionSchema::SelectToHead => "select to head"@,
            EditModeActionSchema::MoveCursorForward => "cursor forward"@,
            EditModeActionSchema::MoveCursorBack => "cursor back"@,
            EditModeActionSchema::MoveCursorUp => "cursor up"@,
            EditModeActionSchema::MoveCursorDown => "cursor down"@,
            EditModeActionSchema::MoveCursorWordForward => "cursor word forward"@,
            EditModeActionSchema::MoveCursorWordEnd => "cursor word end"@,
            EditModeActionSchema::MoveCursorWordBack => "cursor word back"@,
            EditModeActionSchema::MoveCursorParagraphForward => "cursor paragraph forward"@,
            EditModeActionSchema::MoveCursorParagraphBack => "cursor paragraph back"@,
            EditModeActionSchema::MoveCursorEnd => "cursor end"@,
            EditModeActionSchema::MoveCursorHead => "cursor head"@,
            EditModeActionSchema::MoveCursorTop => "cursor top"@,
            EditModeActionSchema::MoveCursorBottom => "cursor bottom"@,
            EditModeActionSchema::MoveCursorInViewport => "cursor in viewport"@,
            EditModeActionSchema::ExitCurrentMode => "exit mode"@,
            EditModeActionSchema::SubmitMessage => "submit message"@,
        }
    }

    /// What the action does, in a few words.
    pub open spec fn description_of(self) -> Seq<char> {
        match self {
            EditModeActionSchema::DeleteChar => "delete one character before cursor"@,
            EditModeActionSchema::DeleteNextChar => "delete one character next to cursor"@,
            EditModeActionSchema::InsertNewline => "insert newline"@,
            EditModeActionSchema::DeleteLineByEnd => "delete from cursor until the end of line"@,
            EditModeActionSchema::DeleteLineByHead => "delete from cursor until the head of line"@,
            EditModeActionSchema::DeleteWord => "delete one word before cursor"@,
            EditModeActionSchema::DeleteNextWord => "delete one word next to cursor"@,
            EditModeActionSchema::Undo => "undo last operation"@,
            EditModeActionSchema::Redo => "redo last undone operation"@,
            EditModeActionSchema::Copy => "copy selected text"@,
            EditModeActionSchema::Cut => "cut selected text"@,
            EditModeActionSchema::Paste => "paste yanked text"@,
            EditModeActionSchema::SelectAll => "select entire text"@,
            EditModeActionSchema::SelectForward => "extend selection forward by one character"@,
            EditModeActionSchema::SelectBack => "extend selection backward by one character"@,
            EditModeActionSchema::SelectUp => "extend selection up by one line"@,
            EditModeActionSchema::SelectDown => "extend selection down by one line"@,
            EditModeActionSchema::SelectWordForward => "extend selection forward by word"@,
            EditModeActionSchema::SelectWordBack => "extend selection backward by word"@,
            EditModeActionSchema::SelectToEnd => "extend selection to end of line"@,
            EditModeActionSchema::SelectToHead => "extend selection to head of line"@,
            EditModeActionSchema::MoveCursorForward => "move cursor forward by one character"@,
            EditModeActionSchema::MoveCursorBack => "move cursor backward by one character"@,
            EditModeActionSchema::MoveCursorUp => "move cursor up by one line"@,
            EditModeActionSchema::MoveCursorDown => "move cursor down by one line"@,
            EditModeActionSchema::MoveCursorWordForward => "move cursor forward by word"@,
            EditModeActionSchema::MoveCursorWordEnd => "move cursor to next end of word"@,
            EditModeActionSchema::MoveCursorWordBack => "move cursor backward by word"@,
            EditModeActionSchema::MoveCursorParagraphForward => "move cursor forward by paragraph"@,
            EditModeActionSchema::MoveCursorParagraphBack => "move cursor backward by paragraph"@,
            EditModeActionSchema::MoveCursorEnd => "move cursor to the end of line"@,
            EditModeActionSchema::MoveCursorHead => "move cursor to the head of line"@,
            EditModeActionSchema::MoveCursorTop => "move cursor to top of document"@,
            EditModeActionSchema::MoveCursorBottom => "move cursor to bottom of document"@,
            EditModeActionSchema::MoveCursorInViewport => "move cursor to stay in the viewport"@,
            EditModeActionSchema::ExitCurrentMode => "exit the current mode"@,
            EditModeActionSchema::SubmitMessage => "submit the message and generate response"@,
        }
    }

    /// Whether the action needs a focused message.
    pub open spec fn requires_focus_of(self) -> bool {
        match self {
            EditModeActionSchema::DeleteChar => false,
            EditModeActionSchema::DeleteNextChar => false,
            EditModeActionSchema::InsertNewline => false,
            EditModeActionSchema::DeleteLineByEnd => false,
            EditModeActionSchema::DeleteLineByHead => false,
            EditModeActionSchema::DeleteWord => false,
            EditModeActionSchema::DeleteNextWord => false,
            EditModeActionSchema::Undo => false,
            EditModeActionSchema::Redo => false,
            EditModeActionSchema::Copy => false,
            EditModeActionSchema::Cut => false,
            EditModeActionSchema::Paste => false,
            EditModeActionSchema::SelectAll => false,
            EditModeActionSchema::SelectForward => false,
            EditModeActionSchema::SelectBack => false,
            EditModeActionSchema::SelectUp => false,
            EditModeActionSchema::SelectDown => false,
            EditModeActionSchema::SelectWordForward => false,
            EditModeActionSchema::SelectWordBack => false,
            EditModeActionSchema::SelectToEnd => false,
            EditModeActionSchema::SelectToHead => false,
            EditModeActionSchema::MoveCursorForward => false,
            EditModeActionSchema::MoveCursorBack => false,
            EditModeActionSchema::MoveCursorUp => false,
            EditModeActionSchema::MoveCursorDown => false,
            EditModeActionSchema::MoveCursorWordForward => false,
            EditModeActionSchema::MoveCursorWordEnd => false,
            EditModeActionSchema::MoveCursorWordBack => false,
            EditModeActionSchema::MoveCursorParagraphForward => false,
            EditModeActionSchema::MoveCursorParagraphBack => false,
            EditModeActionSchema::MoveCursorEnd => false,
            EditModeActionSchema::MoveCursorHead => false,
            EditModeActionSchema::MoveCursorTop => false,
            EditModeActionSchema::MoveCursorBottom => false,
            EditModeActionSchema::MoveCursorInViewport => false,
            EditModeActionSchema::ExitCurrentMode => false,
            EditModeActionSchema::SubmitMessage => false,
        }
    }

    /// The identifier that bindings name the action by.
    pub fn id(&self) -> (r: &'static str)
        ensures
            r@ == self.id_of(),
    {
        match self {
            EditModeActionSchema::DeleteChar => "delete_char",
            EditModeActionSchema::DeleteNextChar => "delete_next_char",
            EditModeActionSchema::InsertNewline => "insert_newline",
            EditModeActionSchema::DeleteLineByEnd => "delete_line_by_end",
            EditModeActionSchema::DeleteLineByHead => "delete_line_by_head",
            EditModeActionSchema::DeleteWord => "delete_word",
            EditModeActionSchema::DeleteNextWord => "delete_next_word",
            EditModeActionSchema::Undo => "undo",
            EditModeActionSchema::Redo => "redo",
            EditModeActionSchema::Copy => "copy",
            EditModeActionSchema::Cut => "cut",
            EditModeActionSchema::Paste => "paste",
            EditModeActionSchema::SelectAll => "select_all",
            EditModeActionSchema::SelectForward => "select_forward",
            EditModeActionSchema::SelectBack => "select_back",
            EditModeActionSchema::SelectUp => "select_up",
            EditModeActionSchema::SelectDown => "select_down",
            EditModeActionSchema::SelectWordForward => "select_word_forward",
            EditModeActionSchema::SelectWordBack => "select_word_back",
            EditModeActionSchema::SelectToEnd => "select_to_end",
            EditModeActionSchema::SelectToHead => "select_to_head",
            EditModeActionSchema::MoveCursorForward => "move_cursor_forward",
            EditModeActionSchema::MoveCursorBack => "move_cursor_back",
            EditModeActionSchema::MoveCursorUp => "move_cursor_up",
            EditModeActionSchema::MoveCursorDown => "move_cursor_down",
            EditModeActionSchema::MoveCursorWordForward => "move_cursor_word_forward",
            EditModeActionSchema::MoveCursorWordEnd => "move_cursor_word_end",
            EditModeActionSchema::MoveCursorWordBack => "move_cursor_word_back",
            EditModeActionSchema::MoveCursorParagraphForward => "move_cursor_paragraph_forward",
            EditModeActionSchema::MoveCursorParagraphBack => "move_cursor_paragraph_back",
            EditModeActionSchema::MoveCursorEnd => "move_cursor_end",
            EditModeActionSchema::MoveCursorHead => "move_cursor_head",
            EditModeActionSchema::MoveCursorTop => "move_cursor_top",
            EditModeActionSchema::MoveCursorBottom => "move_cursor_bottom",
            EditModeActionSchema::MoveCursorInViewport => "move_cursor_in_viewport",
            EditModeActionSchema::ExitCurrentMode => "exit_mode",
            EditModeActionSchema::SubmitMessage => "submit_message",
        }
    }

    /// The short name shown in the help.
    pub fn name(&self) -> (r: &'static str)
        ensures
            r@ == self.name_of(),
    {
        match self {
            EditModeActionSchema::DeleteChar => "delete char",
            EditModeActionSchema::DeleteNextChar => "delete next char",
            EditModeActionSchema::InsertNewline => "newline",
            EditModeActionSchema::DeleteLineByEnd => "delete to end",
            EditModeActionSchema::DeleteLineByHead => "delete to head",
            EditModeActionSchema::DeleteWord => "delete word",
            EditModeActionSchema::DeleteNextWord => "delete next word",
            EditModeActionSchema::Undo => "undo",
            EditModeActionSchema::Redo => "redo",
            EditModeActionSchema::Copy => "copy",
            EditModeActionSchema::Cut => "cut",
            EditModeActionSchema::Paste => "paste",
            EditModeActionSchema::SelectAll => "select all",
            EditModeActionSchema::SelectForward => "select forward",
            EditModeActionSchema::SelectBack => "select back",
            EditModeActionSchema::SelectUp => "select up",
            EditModeActionSchema::SelectDown => "select down",
            EditModeActionSchema::SelectWordForward => "select word forward",
            EditModeActionSchema::SelectWordBack => "select word back",
            EditModeActionSchema::SelectToEnd => "select to end",
            EditModeActionSchema::SelectToHead => "select to head",
            EditModeActionSchema::MoveCursorForward => "cursor forward",
            EditModeActionSchema::MoveCursorBack => "cursor back",
            EditModeActionSchema::MoveCursorUp => "cursor up",
            EditModeActionSchema::MoveCursorDown => "cursor down",
            EditModeActionSchema::MoveCursorWordForward => "cursor word forward",
            EditModeActionSchema::MoveCursorWordEnd => "cursor word end",
            EditModeActionSchema::MoveCursorWordBack => "cursor word back",
            EditModeActionSchema::MoveCursorParagraphForward => "cursor paragraph forward",
            EditModeActionSchema::MoveCursorParagraphBack => "cursor paragraph back",
            EditModeActionSchema::MoveCursorEnd => "cursor end",
            EditModeActionSchema::MoveCursorHead => "cursor head",
            EditModeActionSchema::MoveCursorTop => "cursor top",
            EditModeActionSchema::MoveCursorBottom => "cursor bottom",
            EditModeActionSchema::MoveCursorInViewport => "cursor in viewport",
            EditModeActionSchema::ExitCurrentMode => "exit mode",
            EditModeActionSchema::SubmitMessage => "submit message",
        }
    }

    /// What the action does, in a few words.
    pub fn description(&self) -> (r: &'static str)
        ensures
            r@ == self.description_of(),
    {
        match self {
            EditModeActionSchema::DeleteChar => "delete one character before cursor",
            EditModeActionSchema::DeleteNextChar => "delete one character next to cursor",
            EditModeActionSchema::InsertNewline => "insert newline",
            EditModeActionSchema::DeleteLineByEnd => "delete from cursor until the end of line",
            EditModeActionSchema::DeleteLineByHead => "delete from cursor until the head of line",
            EditModeActionSchema::DeleteWord => "delete one word before cursor",
            EditModeActionSchema::DeleteNextWord => "delete one word next to cursor",
            EditModeActionSchema::Undo => "undo last operation",
            EditModeActionSchema::Redo => "redo last undone operation",
            EditModeActionSchema::Copy => "copy selected text",
            EditModeActionSchema::Cut => "cut selected text",
            EditModeActionSchema::Paste => "paste yanked text",
            EditModeActionSchema::SelectAll => "select entire text",
            EditModeActionSchema::SelectForward => "extend selection forward by one character",
            EditModeActionSchema::SelectBack => "extend selection backward by one character",
            EditModeActionSchema::SelectUp => "extend selection up by one line",
            EditModeActionSchema::SelectDown => "extend selection down by one line",
            EditModeActionSchema::SelectWordForward => "extend selection forward by word",
            EditModeActionSchema::SelectWordBack => "extend selection backward by word",
            EditModeActionSchema::SelectToEnd => "extend selection to end of line",
            EditModeActionSchema::SelectToHead => "extend selection to head of line",
            EditModeActionSchema::MoveCursorForward => "move cursor forward by one character",
            EditModeActionSchema::MoveCursorBack => "move cursor backward by one character",
            EditModeActionSchema::MoveCursorUp => "move cursor up by one line",
            EditModeActionSchema::MoveCursorDown => "move cursor down by one line",
            EditModeActionSchema::MoveCursorWordForward => "move cursor forward by word",
            EditModeActionSchema::MoveCursorWordEnd => "move cursor to next end of word",
            EditModeActionSchema::MoveCursorWordBack => "move cursor backward by word",
            EditModeActionSchema::MoveCursorParagraphForward => "move cursor forward by paragraph",
            EditModeActionSchema::MoveCursorParagraphBack => "move cursor backward by paragraph",
            EditModeActionSchema::MoveCursorEnd => "move cursor to the end of line",
            EditModeActionSchema::MoveCursorHead => "move cursor to the head of line",
            EditModeActionSchema::MoveCursorTop => "move cursor to top of document",
            EditModeActionSchema::MoveCursorBottom => "move cursor to bottom of document",
            EditModeActionSchema::MoveCursorInViewport => "move cursor to stay in the viewport",
            EditModeActionSchema::ExitCurrentMode => "exit the current mode",
            EditModeActionSchema::SubmitMessage => "submit the message and generate response",
        }
    }

    /// Whether the action needs a focused message.
    pub fn requires_focus(&self) -> (r: bool)
        ensures
            r == self.requires_focus_of(),
    {
        false
    }

    /// The action this schema describes.
    pub open spec fn action_of(self) -> EditModeAction {
        match self {
            EditModeActionSchema::DeleteChar => EditModeAction::DeleteChar,
            EditModeActionSchema::DeleteNextChar => EditModeAction::DeleteNextChar,
            EditModeActionSchema::InsertNewline => EditModeAction::InsertNewline,
            EditModeActionSchema::DeleteLineByEnd => EditModeAction::DeleteLineByEnd,
            EditModeActionSchema::DeleteLineByHead => EditModeAction::DeleteLineByHead,
            EditModeActionSchema::DeleteWord => EditModeAction::DeleteWord,
            EditModeActionSchema::DeleteNextWord => EditModeAction::DeleteNextWord,
            EditModeActionSchema::Undo => EditModeAction::Undo,
            EditModeActionSchema::Redo => EditModeAction::Redo,
            EditModeActionSchema::Copy => EditModeAction::Copy,
            EditModeActionSchema::Cut => EditModeAction::Cut,
            EditModeActionSchema::Paste => EditModeAction::Paste,
            EditModeActionSchema::SelectAll => EditModeAction::SelectAll,
            EditModeActionSchema::SelectForward => EditModeAction::SelectForward,
            EditModeActionSchema::SelectBack => EditModeAction::SelectBack,
            EditModeActionSchema::SelectUp => EditModeAction::SelectUp,
            EditModeActionSchema::SelectDown => EditModeAction::SelectDown,
            EditModeActionSchema::SelectWordForward => EditModeAction::SelectWordForward,
            EditModeActionSchema::SelectWordBack => EditModeAction::SelectWordBack,
            EditModeActionSchema::SelectToEnd => EditModeAction::SelectToEnd,
            EditModeActionSchema::SelectToHead => EditModeAction::SelectToHead,
            EditModeActionSchema::MoveCursorForward => EditModeAction::MoveCursorForward,
            EditModeActionSchema::MoveCursorBack => EditModeAction::MoveCursorBack,
            EditModeActionSchema::MoveCursorUp => EditModeAction::MoveCursorUp,
            EditModeActionSchema::MoveCursorDown => EditModeAction::MoveCursorDown,
            EditModeActionSchema::MoveCursorWordForward => EditModeAction::MoveCursorWordForward,
            EditModeActionSchema::MoveCursorWordEnd => EditModeAction::MoveCursorWordEnd,
            EditModeActionSchema::MoveCursorWordBack => EditModeAction::MoveCursorWordBack,
            EditModeActionSchema::MoveCursorParagraphForward => EditModeAction::MoveCursorParagraphForward,
            EditModeActionSchema::MoveCursorParagraphBack => EditModeAction::MoveCursorParagraphBack,
            EditModeActionSchema::MoveCursorEnd => EditModeAction::MoveCursorEnd,
            EditModeActionSchema::MoveCursorHead => EditModeAction::MoveCursorHead,
            EditModeActionSchema::MoveCursorTop => EditModeAction::MoveCursorTop,
            EditModeActionSchema::MoveCursorBottom => EditModeAction::MoveCursorBottom,
            EditModeActionSchema::MoveCursorInViewport => EditModeAction::MoveCursorInViewport,
            EditModeActionSchema::ExitCurrentMode => EditModeAction::ExitCurrentMode,
            EditModeActionSchema::SubmitMessage => EditModeAction::SubmitMessage,
        }
    }

    /// The action the schema describes.
    pub fn to_action(&self) -> (r: EditModeAction)
        ensures
            r == self.action_of(),
    {
        match self {
            EditModeActionSchema::DeleteChar => EditModeAction::DeleteChar,
            EditModeActionSchema::DeleteNextChar => EditModeAction::DeleteNextChar,
            EditModeActionSchema::InsertNewline => EditModeAction::InsertNewline,
            EditModeActionSchema::DeleteLineByEnd => EditModeAction::DeleteLineByEnd,
            EditModeActionSchema::DeleteLineByHead => EditModeAction::DeleteLineByHead,
            EditModeActionSchema::DeleteWord => EditModeAction::DeleteWord,
            EditModeActionSchema::DeleteNextWord => EditModeAction::DeleteNextWord,
            EditModeActionSchema::Undo => EditModeAction::Undo,
            EditModeActionSchema::Redo => EditModeAction::Redo,
            EditModeActionSchema::Copy => EditModeAction::Copy,
            EditModeActionSchema::Cut => EditModeAction::Cut,
            EditModeActionSchema::Paste => EditModeAction::Paste,
            EditModeActionSchema::SelectAll => EditModeAction::SelectAll,
            EditModeActionSchema::SelectForward => EditModeAction::SelectForward,
            EditModeActionSchema::SelectBack => EditModeAction::SelectBack,
            EditModeActionSchema::SelectUp => EditModeAction::SelectUp,
            EditModeActionSchema::SelectDown => EditModeAction::SelectDown,
            EditModeActionSchema::SelectWordForward => EditModeAction::SelectWordForward,
            EditModeActionSchema::SelectWordBack => EditModeAction::SelectWordBack,
            EditModeActionSchema::SelectToEnd => EditModeAction::SelectToEnd,
            EditModeActionSchema::SelectToHead => EditModeAction::SelectToHead,
            EditModeActionSchema::MoveCursorForward => EditModeAction::MoveCursorForward,
            EditModeActionSchema::MoveCursorBack => EditModeAction::MoveCursorBack,
            EditModeActionSchema::MoveCursorUp => EditModeAction::MoveCursorUp,
            EditModeActionSchema::MoveCursorDown => EditModeAction::MoveCursorDown,
            EditModeActionSchema::MoveCursorWordForward => EditModeAction::MoveCursorWordForward,
            EditModeActionSchema::MoveCursorWordEnd => EditModeAction::MoveCursorWordEnd,
            EditModeActionSchema::MoveCursorWordBack => EditModeAction::MoveCursorWordBack,
            EditModeActionSchema::MoveCursorParagraphForward => EditModeAction::MoveCursorParagraphForward,
            EditModeActionSchema::MoveCursorParagraphBack => EditModeAction::MoveCursorParagraphBack,
            EditModeActionSchema::MoveCursorEnd => EditModeAction::MoveCursorEnd,
            EditModeActionSchema::MoveCursorHead => EditModeAction::MoveCursorHead,
            EditModeActionSchema::MoveCursorTop => EditModeAction::MoveCursorTop,
            EditModeActionSchema::MoveCursorBottom => EditModeAction::MoveCursorBottom,
            EditModeActionSchema::MoveCursorInViewport => EditModeAction::MoveCursorInViewport,
            EditModeActionSchema::ExitCurrentMode => EditModeAction::ExitCurrentMode,
            EditModeActionSchema::SubmitMessage => EditModeAction::SubmitMessage,
        }
    }

    /// Every schema, in declaration order.
    pub fn iter_all() -> (r: Vec<EditModeActionSchema>)
        ensures
            r@ == Self::all_schemas(),
    {
        vec![EditModeActionSchema::DeleteChar, EditModeActionSchema::DeleteNextChar, EditModeActionSchema::InsertNewline, EditModeActionSchema::DeleteLineByEnd, EditModeActionSchema::DeleteLineByHead, EditModeActionSchema::DeleteWord, EditModeActionSchema::DeleteNextWord, EditModeActionSchema::Undo, EditModeActionSchema::Redo, EditModeActionSchema::Copy, EditModeActionSchema::Cut, EditModeActionSchema::Paste, EditModeActionSchema::SelectAll, EditModeActionSchema::SelectForward, EditModeActionSchema::SelectBack, EditModeActionSchema::SelectUp, EditModeActionSchema::SelectDown, EditModeActionSchema::SelectWordForward, EditModeActionSchema::SelectWordBack, EditModeActionSchema::SelectToEnd, EditModeActionSchema::SelectToHead, EditModeActionSchema::MoveCursorForward, EditModeActionSchema::MoveCursorBack, EditModeActionSchema::MoveCursorUp, EditModeActionSchema::MoveCursorDown, EditModeActionSchema::MoveCursorWordForward, EditModeActionSchema::MoveCursorWordEnd, EditModeActionSchema::MoveCursorWordBack, EditModeActionSchema::MoveCursorParagraphForward, EditModeActionSchema::MoveCursorParagraphBack, EditModeActionSchema::MoveCursorEnd, EditModeActionSchema::MoveCursorHead, EditModeActionSchema::MoveCursorTop, EditModeActionSchema::MoveCursorBottom, EditModeActionSchema::MoveCursorInViewport, EditModeActionSchema::ExitCurrentMode, EditModeActionSchema::SubmitMessage]
    }

    /// Every schema, in declaration order.
    pub open spec fn all_schemas() -> Seq<EditModeActionSchema> {
        seq![EditModeActionSchema::DeleteChar, EditModeActionSchema::DeleteNextChar, EditModeActionSchema::InsertNewline, EditModeActionSchema::DeleteLineByEnd, EditModeActionSchema::DeleteLineByHead, EditModeActionSchema::DeleteWord, EditModeActionSchema::DeleteNextWord, EditModeActionSchema::Undo, EditModeActionSchema::Redo, EditModeActionSchema::Copy, EditModeActionSchema::Cut, EditModeActionSchema::Paste, EditModeActionSchema::SelectAll, EditModeActionSchema::SelectForward, EditModeActionSchema::SelectBack, EditModeActionSchema::SelectUp, EditModeActionSchema::SelectDown, EditModeActionSchema::SelectWordForward, EditModeActionSchema::SelectWordBack, EditModeActionSchema::SelectToEnd, EditModeActionSchema::SelectToHead, EditModeActionSchema::MoveCursorForward, EditModeActionSchema::MoveCursorBack, EditModeActionSchema::MoveCursorUp, EditModeActionSchema::MoveCursorDown, EditModeActionSchema::MoveCursorWordForward, EditModeActionSchema::MoveCursorWordEnd, EditModeActionSchema::MoveCursorWordBack, EditModeActionSchema::MoveCursorParagraphForward, EditModeActionSchema::MoveCursorParagraphBack, EditModeActionSchema::MoveCursorEnd, EditModeActionSchema::MoveCursorHead, EditModeActionSchema::MoveCursorTop, EditModeActionSchema::MoveCursorBottom, EditModeActionSchema::MoveCursorInViewport, EditModeActionSchema::ExitCurrentMode, EditModeActionSchema::SubmitMessage]
    }
}


/// Actions available in every mode, with their parameters.
#[derive(Clone, Copy, Debug, PartialEq, Eq, Structural)]
pub enum CommonAction {
    Quit,
    ShowHelp(Mode),
}

/// A schema of any mode.
#[derive(Clone, Copy, Debug, PartialEq, Eq, Structural)]
pub enum ActionSchema {
    Common(CommonActionSchema),
    Normal(NormalModeActionSchema),
    Edit(EditModeActionSchema),
}

impl ActionSchema {
    /// The identifier that bindings name the action by.
    pub open spec fn id_of(self) -> Seq<char> {
        match self {
            ActionSchema::Common(a) => a.id_of(),
            ActionSchema::Normal(a) => a.id_of(),
            ActionSchema::Edit(a) => a.id_of(),
        }
    }

    /// The short name shown in the help.
    pub open spec fn name_of(self) -> Seq<char> {
        match self {
            ActionSchema::Common(a) => a.name_of(),
            ActionSchema::Normal(a) => a.name_of(),
            ActionSchema::Edit(a) => a.name_of(),
        }
    }

    /// What the action does, in a few words.
    pub open spec fn description_of(self) -> Seq<char> {
        match self {
            ActionSchema::Common(a) => a.description_of(),
            ActionSchema::Normal(a) => a.description_of(),
            ActionSchema::Edit(a) => a.description_of(),
        }
    }

    /// Whether the action needs a focused message.
    pub open spec fn requires_focus_of(self) -> bool {
        match self {
            ActionSchema::Common(a) => a.requires_focus_of(),
            ActionSchema::Normal(a) => a.requires_focus_of(),
            ActionSchema::Edit(a) => a.requires_focus_of(),
        }
    }

    /// The identifier that bindings name the action by.
    pub fn id(&self) -> (r: &'static str)
        ensures
            r@ == self.id_of(),
    {
        match self {
            ActionSchema::Common(action) => action.id(),
            ActionSchema::Normal(action) => action.id(),
            ActionSchema::Edit(action) => action.id(),
        }
    }

    /// The short name shown in the help.
    pub fn name(&self) -> (r: &'static str)
        ensures
            r@ == self.name_of(),
    {
        match self {
            ActionSchema::Common(action) => action.name(),
            ActionSchema::Normal(action) => action.name(),
            ActionSchema::Edit(action) => action.name(),
        }
    }

    /// What the action does, in a few words.
    pub fn description(&self) -> (r: &'static str)
        ensures
            r@ == self.description_of(),
    {
        match self {
            ActionSchema::Common(action) => action.description(),
            ActionSchema::Normal(action) => action.description(),
            ActionSchema::Edit(action) => action.description(),
        }
    }

    /// Whether the action needs a focused message.
    pub fn requires_focus(&self) -> (r: bool)
        ensures
            r == self.requires_focus_of(),
    {
        match self {
            ActionSchema::Common(action) => action.requires_focus(),
            ActionSchema::Normal(action) => action.requires_focus(),
            ActionSchema::Edit(action) => action.requires_focus(),
        }
    }
}

/// An action to perform, with its parameters.
#[derive(Clone, Copy, Debug, PartialEq, Eq, Structural)]
pub enum UIAction {
    Common(CommonAction),
    NormalMode(NormalModeAction),
    EditMode(EditModeAction),
}

/// Whether a schema's action can run in `mode`: common actions always, the others in
/// their own mode.
pub open spec fn available_in_mode(schema: ActionSchema, mode: Mode) -> bool {
    match (schema, mode) {
        (ActionSchema::Common(_), _) => true,
        (ActionSchema::Normal(_), Mode::Normal) => true,
        (ActionSchema::Edit(_), Mode::Edit) => true,
        _ => false,
    }
}

/// Whether a schema's action can run in `mode`.
pub fn schema_available_in_mode(schema: &ActionSchema, mode: Mode) -> (r: bool)
    ensures
        r == available_in_mode(*schema, mode),
{
    match (schema, mode) {
        (ActionSchema::Common(_), _) => true,
        (ActionSchema::Normal(_), Mode::Normal) => true,
        (ActionSchema::Edit(_), Mode::Edit) => true,
        _ => false,
    }
}

/// Every schema, in the order the registry records them: common, normal, then edit.
pub open spec fn registered_schemas() -> Seq<ActionSchema> {
    CommonActionSchema::all_schemas().map_values(|a| ActionSchema::Common(a))
        + NormalModeActionSchema::all_schemas().map_values(|a| ActionSchema::Normal(a))
        + EditModeActionSchema::all_schemas().map_values(|a| ActionSchema::Edit(a))
}


/// Every normal-mode action, in declaration order.
pub open spec fn normal_actions() -> Seq<NormalModeAction> {
    seq![NormalModeAction::ScrollUp, NormalModeAction::ScrollDown, NormalModeAction::ScrollHalfPageUp, NormalModeAction::ScrollHalfPageDown, NormalModeAction::ScrollPageUp, NormalModeAction::ScrollPageDown, NormalModeAction::ScrollToTop, NormalModeAction::ScrollToBottom, NormalModeAction::ScrollToPreviousMessage, NormalModeAction::ScrollToNextMessage, NormalModeAction::EnterEditMode, NormalModeAction::EnterAppendMode, NormalModeAction::EnterCommandPalette, NormalModeAction::DeleteMessage, NormalModeAction::ForkBranch, NormalModeAction::HideMessage, NormalModeAction::ShowMessage, NormalModeAction::NextBranch, NormalModeAction::PrevBranch, NormalModeAction::NextTree, NormalModeAction::PrevTree]
}

/// Every edit-mode action, in declaration order.
pub open spec fn edit_actions() -> Seq<EditModeAction> {
    seq![EditModeAction::DeleteChar, EditModeAction::DeleteNextChar, EditModeAction::InsertNewline, EditModeAction::DeleteLineByEnd, EditModeAction::DeleteLineByHead, EditModeAction::DeleteWord, EditModeAction::DeleteNextWord, EditModeAction::Undo, EditModeAction::Redo, EditModeAction::Copy, EditModeAction::Cut, EditModeAction::Paste, EditModeAction::SelectAll, EditModeAction::SelectForward, EditModeAction::SelectBack, EditModeAction::SelectUp, EditModeAction::SelectDown, EditModeAction::SelectWordForward, EditModeAction::SelectWordBack, EditModeAction::SelectToEnd, EditModeAction::SelectToHead, EditModeAction::MoveCursorForward, EditModeAction::MoveCursorBack, EditModeAction::MoveCursorUp, EditModeAction::MoveCursorDown, EditModeAction::MoveCursorWordForward, EditModeAction::MoveCursorWordEnd, EditModeAction::MoveCursorWordBack, EditModeAction::MoveCursorParagraphForward, EditModeAction::MoveCursorParagraphBack, EditModeAction::MoveCursorEnd, EditModeAction::MoveCursorHead, EditModeAction::MoveCursorTop, EditModeAction::MoveCursorBottom, EditModeAction::MoveCursorInViewport, EditModeAction::ExitCurrentMode, EditModeAction::SubmitMessage]
}

/// The schema whose identifier is `id`, among all the schemas of the three kinds.
pub open spec fn schema_of_id(id: Seq<char>) -> Option<ActionSchema> {
    if id == "quit"@ {
        Some(ActionSchema::Common(CommonActionSchema::Quit))
    } else if id == "show_help"@ {
        Some(ActionSchema::Common(CommonActionSchema::ShowHelp))
    } else if id == "scroll_up"@ {
        Some(ActionSchema::Normal(NormalModeActionSchema::ScrollUp))
    } else if id == "scroll_down"@ {
        Some(ActionSchema::Normal(NormalModeActionSchema::ScrollDown))
    } else if id == "scroll_half_page_up"@ {
        Some(ActionSchema::Normal(NormalModeActionSchema::ScrollHalfPageUp))
    } else if id == "scroll_half_page_down"@ {
        Some(ActionSchema::Normal(NormalModeActionSchema::ScrollHalfPageDown))
    } else if id == "scroll_page_up"@ {
        Some(ActionSchema::Normal(NormalModeActionSchema::ScrollPageUp))
    } else if id == "scroll_page_down"@ {
        Some(ActionSchema::Normal(NormalModeActionSchema::ScrollPageDown))
    } else if id == "scroll_to_top"@ {
        Some(ActionSchema::Normal(NormalModeActionSchema::ScrollToTop))
    } else if id == "scroll_to_bottom"@ {
        Some(ActionSchema::Normal(NormalModeActionSchema::ScrollToBottom))
    } else if id == "scroll_to_previous_message"@ {
        Some(ActionSchema::Normal(NormalModeActionSchema::ScrollToPreviousMessage))
    } else if id == "scroll_to_next_message"@ {
        Some(ActionSchema::Normal(NormalModeActionSchema::ScrollToNextMessage))
    } else if id == "edit_message"@ {
        Some(ActionSchema::Normal(NormalModeActionSchema::EnterEditMode))
    } else if id == "append_message"@ {
        Some(ActionSchema::Normal(NormalModeActionSchema::EnterAppendMode))
    } else if id == "command_palette"@ {
        Some(ActionSchema::Normal(NormalModeActionSchema::EnterCommandPalette))
    } else if id == "delete_message"@ {
        Some(ActionSchema::Normal(NormalModeActionSchema::DeleteMessage))
    } else if id == "fork_branch"@ {
        Some(ActionSchema::Normal(NormalModeActionSchema::ForkBranch))
    } else if id == "hide_message"@ {
        Some(ActionSchema::Normal(NormalModeActionSchema::HideMessage))
    } else if id == "show_message"@ {
        Some(ActionSchema::Normal(NormalModeActionSchema::ShowMessage))
    } else if id == "next_branch"@ {
        Some(ActionSchema::Normal(NormalModeActionSchema::NextBranch))
    } else if id == "prev_branch"@ {
        Some(ActionSchema::Normal(NormalModeActionSchema::PrevBranch))
    } else if id == "next_tree"@ {
        Some(ActionSchema::Normal(NormalModeActionSchema::NextTree))
    } else if id == "prev_tree"@ {
        Some(ActionSchema::Normal(NormalModeActionSchema::PrevTree))
    } else if id == "delete_char"@ {
        Some(ActionSchema::Edit(EditModeActionSchema::DeleteChar))
    } else if id == "delete_next_char"@ {
        Some(ActionSchema::Edit(EditModeActionSchema::DeleteNextChar))
    } else if id == "insert_newline"@ {
        Some(ActionSchema::Edit(EditModeActionSchema::InsertNewline))
    } else if id == "delete_line_by_end"@ {
        Some(ActionSchema::Edit(EditModeActionSchema::DeleteLineByEnd))
    } else if id == "delete_line_by_head"@ {
        Some(ActionSchema::Edit(EditModeActionSchema::DeleteLineByHead))
    } else if id == "delete_word"@ {
        Some(ActionSchema::Edit(EditModeActionSchema::DeleteWord))
    } else if id == "delete_next_word"@ {
        Some(ActionSchema::Edit(EditModeActionSchema::DeleteNextWord))
    } else if id == "undo"@ {
        Some(ActionSchema::Edit(EditModeActionSchema::Undo))
    } else if id == "redo"@ {
        Some(ActionSchema::Edit(EditModeActionSchema::Redo))
    } else if id == "copy"@ {
        Some(ActionSchema::Edit(EditModeActionSchema::Copy))
    } else if id == "cut"@ {
        Some(ActionSchema::Edit(EditModeActionSchema::Cut))
    } else if id == "paste"@ {
        Some(ActionSchema::Edit(EditModeActionSchema::Paste))
    } else if id == "select_all"@ {
        Some(ActionSchema::Edit(EditModeActionSchema::SelectAll))
    } else if id == "select_forward"@ {
        Some(ActionSchema::Edit(EditModeActionSchema::SelectForward))
    } else if id == "select_back"@ {
        Some(ActionSchema::Edit(EditModeActionSchema::SelectBack))
    } else if id == "select_up"@ {
        Some(ActionSchema::Edit(EditModeActionSchema::SelectUp))
    } else if id == "select_down"@ {
        Some(ActionSchema::Edit(EditModeActionSchema::SelectDown))
    } else if id == "select_word_forward"@ {
        Some(ActionSchema::Edit(EditModeActionSchema::SelectWordForward))
    } else if id == "select_word_back"@ {
        Some(ActionSchema::Edit(EditModeActionSchema::SelectWordBack))
    } else if id == "select_to_end"@ {
        Some(ActionSchema::Edit(EditModeActionSchema::SelectToEnd))
    } else if id == "select_to_head"@ {
        Some(ActionSchema::Edit(EditModeActionSchema::SelectToHead))
    } else if id == "move_cursor_forward"@ {
        Some(ActionSchema::Edit(EditModeActionSchema::MoveCursorForward))
    } else if id == "move_cursor_back"@ {
        Some(ActionSchema::Edit(EditModeActionSchema::MoveCursorBack))
    } else if id == "move_cursor_up"@ {
        Some(ActionSchema::Edit(EditModeActionSchema::MoveCursorUp))
    } else if id == "move_cursor_down"@ {
        Some(ActionSchema::Edit(EditModeActionSchema::MoveCursorDown))
    } else if id == "move_cursor_word_forward"@ {
        Some(ActionSchema::Edit(EditModeActionSchema::MoveCursorWordForward))
    } else if id == "move_cursor_word_end"@ {
        Some(ActionSchema::Edit(EditModeActionSchema::MoveCursorWordEnd))
    } else if id == "move_cursor_word_back"@ {
        Some(ActionSchema::Edit(EditModeActionSchema::MoveCursorWordBack))
    } else if id == "move_cursor_paragraph_forward"@ {
        Some(ActionSchema::Edit(EditModeActionSchema::MoveCursorParagraphForward))
    } else if id == "move_cursor_paragraph_back"@ {
        Some(ActionSchema::Edit(EditModeActionSchema::MoveCursorParagraphBack))
    } else if id == "move_cursor_end"@ {
        Some(ActionSchema::Edit(EditModeActionSchema::MoveCursorEnd))
    } else if id == "move_cursor_head"@ {
        Some(ActionSchema::Edit(EditModeActionSchema::MoveCursorHead))
    } else if id == "move_cursor_top"@ {
        Some(ActionSchema::Edit(EditModeActionSchema::MoveCursorTop))
    } else if id == "move_cursor_bottom"@ {
        Some(ActionSchema::Edit(EditModeActionSchema::MoveCursorBottom))
    } else if id == "move_cursor_in_viewport"@ {
        Some(ActionSchema::Edit(EditModeActionSchema::MoveCursorInViewport))
    } else if id == "exit_mode"@ {
        Some(ActionSchema::Edit(EditModeActionSchema::ExitCurrentMode))
    } else if id == "submit_message"@ {
        Some(ActionSchema::Edit(EditModeActionSchema::SubmitMessage))
    } else {
        None
    }
}

/// Position of a schema among the registered schemas.
pub open spec fn schema_position(s: ActionSchema) -> int {
    match s {
        ActionSchema::Common(CommonActionSchema::Quit) => 0,
        ActionSchema::Common(CommonActionSchema::ShowHelp) => 1,
        ActionSchema::Normal(NormalModeActionSchema::ScrollUp) => 2,
        ActionSchema::Normal(NormalModeActionSchema::ScrollDown) => 3,
        ActionSchema::Normal(NormalModeActionSchema::ScrollHalfPageUp) => 4,
        ActionSchema::Normal(NormalModeActionSchema::ScrollHalfPageDown) => 5,
        ActionSchema::Normal(NormalModeActionSchema::ScrollPageUp) => 6,
        ActionSchema::Normal(NormalModeActionSchema::ScrollPageDown) => 7,
        ActionSchema::Normal(NormalModeActionSchema::ScrollToTop) => 8,
        ActionSchema::Normal(NormalModeActionSchema::ScrollToBottom) => 9,
        ActionSchema::Normal(NormalModeActionSchema::ScrollToPreviousMessage) => 10,
        ActionSchema::Normal(NormalModeActionSchema::ScrollToNextMessage) => 11,
        ActionSchema::Normal(NormalModeActionSchema::EnterEditMode) => 12,
        ActionSchema::Normal(NormalModeActionSchema::EnterAppendMode) => 13,
        ActionSchema::Normal(NormalModeActionSchema::EnterCommandPalette) => 14,
        ActionSchema::Normal(NormalModeActionSchema::DeleteMessage) => 15,
        ActionSchema::Normal(NormalModeActionSchema::ForkBranch) => 16,
        ActionSchema::Normal(NormalModeActionSchema::HideMessage) => 17,
        ActionSchema::Normal(NormalModeActionSchema::ShowMessage) => 18,
        ActionSchema::Normal(NormalModeActionSchema::NextBranch) => 19,
        ActionSchema::Normal(NormalModeActionSchema::PrevBranch) => 20,
        ActionSchema::Normal(NormalModeActionSchema::NextTree) => 21,
        ActionSchema::Normal(NormalModeActionSchema::PrevTree) => 22,
        ActionSchema::Edit(EditModeActionSchema::DeleteChar) => 23,
        ActionSchema::Edit(EditModeActionSchema::DeleteNextChar) => 24,
        ActionSchema::Edit(EditModeActionSchema::InsertNewline) => 25,
        ActionSchema::Edit(EditModeActionSchema::DeleteLineByEnd) => 26,
        ActionSchema::Edit(EditModeActionSchema::DeleteLineByHead) => 27,
        ActionSchema::Edit(EditModeActionSchema::DeleteWord) => 28,
        ActionSchema::Edit(EditModeActionSchema::DeleteNextWord) => 29,
        ActionSchema::Edit(EditModeActionSchema::Undo) => 30,
        ActionSchema::Edit(EditModeActionSchema::Redo) => 31,
        ActionSchema::Edit(EditModeActionSchema::Copy) => 32,
        ActionSchema::Edit(EditModeActionSchema::Cut) => 33,
        ActionSchema::Edit(EditModeActionSchema::Paste) => 34,
        ActionSchema::Edit(EditModeActionSchema::SelectAll) => 35,
        ActionSchema::Edit(EditModeActionSchema::SelectForward) => 36,
        ActionSchema::Edit(EditModeActionSchema::SelectBack) => 37,
        ActionSchema::Edit(EditModeActionSchema::SelectUp) => 38,
        ActionSchema::Edit(EditModeActionSchema::SelectDown) => 39,
        ActionSchema::Edit(EditModeActionSchema::SelectWordForward) => 40,
        ActionSchema::Edit(EditModeActionSchema::SelectWordBack) => 41,
        ActionSchema::Edit(EditModeActionSchema::SelectToEnd) => 42,
        ActionSchema::Edit(EditModeActionSchema::SelectToHead) => 43,
        ActionSchema::Edit(EditModeActionSchema::MoveCursorForward) => 44,
        ActionSchema::Edit(EditModeActionSchema::MoveCursorBack) => 45,
        ActionSchema::Edit(EditModeActionSchema::MoveCursorUp) => 46,
        ActionSchema::Edit(EditModeActionSchema::MoveCursorDown) => 47,
        ActionSchema::Edit(EditModeActionSchema::MoveCursorWordForward) => 48,
        ActionSchema::Edit(EditModeActionSchema::MoveCursorWordEnd) => 49,
        ActionSchema::Edit(EditModeActionSchema::MoveCursorWordBack) => 50,
        ActionSchema::Edit(EditModeActionSchema::MoveCursorParagraphForward) => 51,
        ActionSchema::Edit(EditModeActionSchema::MoveCursorParagraphBack) => 52,
        ActionSchema::Edit(EditModeActionSchema::MoveCursorEnd) => 53,
        ActionSchema::Edit(EditModeActionSchema::MoveCursorHead) => 54,
        ActionSchema::Edit(EditModeActionSchema::MoveCursorTop) => 55,
        ActionSchema::Edit(EditModeActionSchema::MoveCursorBottom) => 56,
        ActionSchema::Edit(EditModeActionSchema::MoveCursorInViewport) => 57,
        ActionSchema::Edit(EditModeActionSchema::ExitCurrentMode) => 58,
        ActionSchema::Edit(EditModeActionSchema::SubmitMessage) => 59,
    }
}

/// The lengths of the schema identifiers.
proof fn lemma_id_lengths()
    ensures
        "quit"@.len() == 4,
        "show_help"@.len() == 9,
        "scroll_up"@.len() == 9,
        "scroll_down"@.len() == 11,
        "scroll_half_page_up"@.len() == 19,
        "scroll_half_page_down"@.len() == 21,
        "scroll_page_up"@.len() == 14,
        "scroll_page_down"@.len() == 16,
        "scroll_to_top"@.len() == 13,
        "scroll_to_bottom"@.len() == 16,
        "scroll_to_previous_message"@.len() == 26,
        "scroll_to_next_message"@.len() == 22,
        "edit_message"@.len() == 12,
        "append_message"@.len() == 14,
        "command_palette"@.len() == 15,
        "delete_message"@.len() == 14,
        "fork_branch"@.len() == 11,
        "hide_message"@.len() == 12,
        "show_message"@.len() == 12,
        "next_branch"@.len() == 11,
        "prev_branch"@.len() == 11,
        "next_tree"@.len() == 9,
        "prev_tree"@.len() == 9,
        "delete_char"@.len() == 11,
        "delete_next_char"@.len() == 16,
        "insert_newline"@.len() == 14,
        "delete_line_by_end"@.len() == 18,
        "delete_line_by_head"@.len() == 19,
        "delete_word"@.len() == 11,
        "delete_next_word"@.len() == 16,
        "undo"@.len() == 4,
        "redo"@.len() == 4,
        "copy"@.len() == 4,
        "cut"@.len() == 3,
        "paste"@.len() == 5,
        "select_all"@.len() == 10,
        "select_forward"@.len() == 14,
        "select_back"@.len() == 11,
        "select_up"@.len() == 9,
        "select_down"@.len() == 11,
        "select_word_forward"@.len() == 19,
        "select_word_back"@.len() == 16,
        "select_to_end"@.len() == 13,
        "select_to_head"@.len() == 14,
        "move_cursor_forward"@.len() == 19,
        "move_cursor_back"@.len() == 16,
        "move_cursor_up"@.len() == 14,
        "move_cursor_down"@.len() == 16,
        "move_cursor_word_forward"@.len() == 24,
        "move_cursor_word_end"@.len() == 20,
        "move_cursor_word_back"@.len() == 21,
        "move_cursor_paragraph_forward"@.len() == 29,
        "move_cursor_paragraph_back"@.len() == 26,
        "move_cursor_end"@.len() == 15,
        "move_cursor_head"@.len() == 16,
        "move_cursor_top"@.len() == 15,
        "move_cursor_bottom"@.len() == 18,
        "move_cursor_in_viewport"@.len() == 23,
        "exit_mode"@.len() == 9,
        "submit_message"@.len() == 14,
{
    reveal_strlit("quit");
    reveal_strlit("show_help");
    reveal_strlit("scroll_up");
    reveal_strlit("scroll_down");
    reveal_strlit("scroll_half_page_up");
    reveal_strlit("scroll_half_page_down");
    reveal_strlit("scroll_page_up");
    reveal_strlit("scroll_page_down");
    reveal_strlit("scroll_to_top");
    reveal_strlit("scroll_to_bottom");
    reveal_strlit("scroll_to_previous_message");
    reveal_strlit("scroll_to_next_message");
    reveal_strlit("edit_message");
    reveal_strlit("append_message");
    reveal_strlit("command_palette");
    reveal_strlit("delete_message");
    reveal_strlit("fork_branch");
    reveal_strlit("hide_message");
    reveal_strlit("show_message");
    reveal_strlit("next_branch");
    reveal_strlit("prev_branch");
    reveal_strlit("next_tree");
    reveal_strlit("prev_tree");
    reveal_strlit("delete_char");
    reveal_strlit("delete_next_char");
    reveal_strlit("insert_newline");
    reveal_strlit("delete_line_by_end");
    reveal_strlit("delete_line_by_head");
    reveal_strlit("delete_word");
    reveal_strlit("delete_next_word");
    reveal_strlit("undo");
    reveal_strlit("redo");
    reveal_strlit("copy");
    reveal_strlit("cut");
    reveal_strlit("paste");
    reveal_strlit("select_all");
    reveal_strlit("select_forward");
    reveal_strlit("select_back");
    reveal_strlit("select_up");
    reveal_strlit("select_down");
    reveal_strlit("select_word_forward");
    reveal_strlit("select_word_back");
    reveal_strlit("select_to_end");
    reveal_strlit("select_to_head");
    reveal_strlit("move_cursor_forward");
    reveal_strlit("move_cursor_back");
    reveal_strlit("move_cursor_up");
    reveal_strlit("move_cursor_down");
    reveal_strlit("move_cursor_word_forward");
    reveal_strlit("move_cursor_word_end");
    reveal_strlit("move_cursor_word_back");
    reveal_strlit("move_cursor_paragraph_forward");
    reveal_strlit("move_cursor_paragraph_back");
    reveal_strlit("move_cursor_end");
    reveal_strlit("move_cursor_head");
    reveal_strlit("move_cursor_top");
    reveal_strlit("move_cursor_bottom");
    reveal_strlit("move_cursor_in_viewport");
    reveal_strlit("exit_mode");
    reveal_strlit("submit_message");
}

proof fn lemma_own_id_0()
    ensures
        schema_of_id(ActionSchema::Common(CommonActionSchema::Quit).id_of()) == Some(ActionSchema::Common(CommonActionSchema::Quit)),
        ActionSchema::Common(CommonActionSchema::Quit).id_of().len() > 0,
{
    lemma_id_lengths();
    reveal_strlit("quit");
    assert(ActionSchema::Common(CommonActionSchema::Quit).id_of() == "quit"@);
    assert(schema_of_id("quit"@) == Some(ActionSchema::Common(CommonActionSchema::Quit)));
}

proof fn lemma_own_id_1()
    ensures
        schema_of_id(ActionSchema::Common(CommonActionSchema::ShowHelp).id_of()) == Some(ActionSchema::Common(CommonActionSchema::ShowHelp)),
        ActionSchema::Common(CommonActionSchema::ShowHelp).id_of().len() > 0,
{
    lemma_id_lengths();
    reveal_strlit("show_help");
    assert(ActionSchema::Common(CommonActionSchema::ShowHelp).id_of() == "show_help"@);
    assert(schema_of_id("show_help"@) == Some(ActionSchema::Common(CommonActionSchema::ShowHelp)));
}

proof fn lemma_own_id_2()
    ensures
        schema_of_id(ActionSchema::Normal(NormalModeActionSchema::ScrollUp).id_of()) == Some(ActionSchema::Normal(NormalModeActionSchema::ScrollUp)),
        ActionSchema::Normal(NormalModeActionSchema::ScrollUp).id_of().len() > 0,
{
    lemma_id_lengths();
    reveal_strlit("scroll_up");
    reveal_strlit("show_help");
    assert("scroll_up"@[1] != "show_help"@[1]);
    assert(ActionSchema::Normal(NormalModeActionSchema::ScrollUp).id_of() == "scroll_up"@);
    assert(schema_of_id("scroll_up"@) == Some(ActionSchema::Normal(NormalModeActionSchema::ScrollUp)));
}

proof fn lemma_own_id_3()
    ensures
        schema_of_id(ActionSchema::Normal(NormalModeActionSchema::ScrollDown).id_of()) == Some(ActionSchema::Normal(NormalModeActionSchema::ScrollDown)),
        ActionSchema::Normal(NormalModeActionSchema::ScrollDown).id_of().len() > 0,
{
    lemma_id_lengths();
    reveal_strlit("scroll_down");
    assert(ActionSchema::Normal(NormalModeActionSchema::ScrollDown).id_of() == "scroll_down"@);
    assert(schema_of_id("scroll_down"@) == Some(ActionSchema::Normal(NormalModeActionSchema::ScrollDown)));
}

proof fn lemma_own_id_4()
    ensures
        schema_of_id(ActionSchema::Normal(NormalModeActionSchema::ScrollHalfPageUp).id_of()) == Some(ActionSchema::Normal(NormalModeActionSchema::ScrollHalfPageUp)),
        ActionSchema::Normal(NormalModeActionSchema::ScrollHalfPageUp).id_of().len() > 0,
{
    lemma_id_lengths();
    reveal_strlit("scroll_half_page_up");
    assert(ActionSchema::Normal(NormalModeActionSchema::ScrollHalfPageUp).id_of() == "scroll_half_page_up"@);
    assert(schema_of_id("scroll_half_page_up"@) == Some(ActionSchema::Normal(NormalModeActionSchema::ScrollHalfPageUp)));
}

proof fn lemma_own_id_5()
    ensures
        schema_of_id(ActionSchema::Normal(NormalModeActionSchema::ScrollHalfPageDown).id_of()) == Some(ActionSchema::Normal(NormalModeActionSchema::ScrollHalfPageDown)),
        ActionSchema::Normal(NormalModeActionSchema::ScrollHalfPageDown).id_of().len() > 0,
{
    lemma_id_lengths();
    reveal_strlit("scroll_half_page_down");
    assert(ActionSchema::Normal(NormalModeActionSchema::ScrollHalfPageDown).id_of() == "scroll_half_page_down"@);
    assert(schema_of_id("scroll_half_page_down"@) == Some(ActionSchema::Normal(NormalModeActionSchema::ScrollHalfPageDown)));
}

proof fn lemma_own_id_6()
    ensures
        schema_of_id(ActionSchema::Normal(NormalModeActionSchema::ScrollPageUp).id_of()) == Some(ActionSchema::Normal(NormalModeActionSchema::ScrollPageUp)),
        ActionSchema::Normal(NormalModeActionSchema::ScrollPageUp).id_of().len() > 0,
{
    lemma_id_lengths();
    reveal_strlit("scroll_page_up");
    assert(ActionSchema::Normal(NormalModeActionSchema::ScrollPageUp).id_of() == "scroll_page_up"@);
    assert(schema_of_id("scroll_page_up"@) == Some(ActionSchema::Normal(NormalModeActionSchema::ScrollPageUp)));
}

proof fn lemma_own_id_7()
    ensures
        schema_of_id(ActionSchema::Normal(NormalModeActionSchema::ScrollPageDown).id_of()) == Some(ActionSchema::Normal(NormalModeActionSchema::ScrollPageDown)),
        ActionSchema::Normal(NormalModeActionSchema::ScrollPageDown).id_of().len() > 0,
{
    lemma_id_lengths();
    reveal_strlit("scroll_page_down");
    assert(ActionSchema::Normal(NormalModeActionSchema::ScrollPageDown).id_of() == "scroll_page_down"@);
    assert(schema_of_id("scroll_page_down"@) == Some(ActionSchema::Normal(NormalModeActionSchema::ScrollPageDown)));
}

proof fn lemma_own_id_8()
    ensures
        schema_of_id(ActionSchema::Normal(NormalModeActionSchema::ScrollToTop).id_of()) == Some(ActionSchema::Normal(NormalModeActionSchema::ScrollToTop)),
        ActionSchema::Normal(NormalModeActionSchema::ScrollToTop).id_of().len() > 0,
{
    lemma_id_lengths();
    reveal_strlit("scroll_to_top");
    assert(ActionSchema::Normal(NormalModeActionSchema::ScrollToTop).id_of() == "scroll_to_top"@);
    assert(schema_of_id("scroll_to_top"@) == Some(ActionSchema::Normal(NormalModeActionSchema::ScrollToTop)));
}

proof fn lemma_own_id_9()
    ensures
        schema_of_id(ActionSchema::Normal(NormalModeActionSchema::ScrollToBottom).id_of()) == Some(ActionSchema::Normal(NormalModeActionSchema::ScrollToBottom)),
        ActionSchema::Normal(NormalModeActionSchema::ScrollToBottom).id_of().len() > 0,
{
    lemma_id_lengths();
    reveal_strlit("scroll_to_bottom");
    reveal_strlit("scroll_page_down");
    assert("scroll_to_bottom"@[7] != "scroll_page_down"@[7]);
    assert(ActionSchema::Normal(NormalModeActionSchema::ScrollToBottom).id_of() == "scroll_to_bottom"@);
    assert(schema_of_id("scroll_to_bottom"@) == Some(ActionSchema::Normal(NormalModeActionSchema::ScrollToBottom)));
}

proof fn lemma_own_id_10()
    ensures
        schema_of_id(ActionSchema::Normal(NormalModeActionSchema::ScrollToPreviousMessage).id_of()) == Some(ActionSchema::Normal(NormalModeActionSchema::ScrollToPreviousMessage)),
        ActionSchema::Normal(NormalModeActionSchema::ScrollToPreviousMessage).id_of().len() > 0,
{
    lemma_id_lengths();
    reveal_strlit("scroll_to_previous_message");
    assert(ActionSchema::Normal(NormalModeActionSchema::ScrollToPreviousMessage).id_of() == "scroll_to_previous_message"@);
    assert(schema_of_id("scroll_to_previous_message"@) == Some(ActionSchema::Normal(NormalModeActionSchema::ScrollToPreviousMessage)));
}

proof fn lemma_own_id_11()
    ensures
        schema_of_id(ActionSchema::Normal(NormalModeActionSchema::ScrollToNextMessage).id_of()) == Some(ActionSchema::Normal(NormalModeActionSchema::ScrollToNextMessage)),
        ActionSchema::Normal(NormalModeActionSchema::ScrollToNextMessage).id_of().len() > 0,
{
    lemma_id_lengths();
    reveal_strlit("scroll_to_next_message");
    assert(ActionSchema::Normal(NormalModeActionSchema::ScrollToNextMessage).id_of() == "scroll_to_next_message"@);
    assert(schema_of_id("scroll_to_next_message"@) == Some(ActionSchema::Normal(NormalModeActionSchema::ScrollToNextMessage)));
}

proof fn lemma_own_id_12()
    ensures
        schema_of_id(ActionSchema::Normal(NormalModeActionSchema::EnterEditMode).id_of()) == Some(ActionSchema::Normal(NormalModeActionSchema::EnterEditMode)),
        ActionSchema::Normal(NormalModeActionSchema::EnterEditMode).id_of().len() > 0,
{
    lemma_id_lengths();
    reveal_strlit("edit_message");
    assert(ActionSchema::Normal(NormalModeActionSchema::EnterEditMode).id_of() == "edit_message"@);
    assert(schema_of_id("edit_message"@) == Some(ActionSchema::Normal(NormalModeActionSchema::EnterEditMode)));
}

proof fn lemma_own_id_13()
    ensures
        schema_of_id(ActionSchema::Normal(NormalModeActionSchema::EnterAppendMode).id_of()) == Some(ActionSchema::Normal(NormalModeActionSchema::EnterAppendMode)),
        ActionSchema::Normal(NormalModeActionSchema::EnterAppendMode).id_of().len() > 0,
{
    lemma_id_lengths();
    reveal_strlit("append_message");
    reveal_strlit("scroll_page_up");
    assert("append_message"@[0] != "scroll_page_up"@[0]);
    assert(ActionSchema::Normal(NormalModeActionSchema::EnterAppendMode).id_of() == "append_message"@);
    assert(schema_of_id("append_message"@) == Some(ActionSchema::Normal(NormalModeActionSchema::EnterAppendMode)));
}

proof fn lemma_own_id_14()
    ensures
        schema_of_id(ActionSchema::Normal(NormalModeActionSchema::EnterCommandPalette).id_of()) == Some(ActionSchema::Normal(NormalModeActionSchema::EnterCommandPalette)),
        ActionSchema::Normal(NormalModeActionSchema::EnterCommandPalette).id_of().len() > 0,
{
    lemma_id_lengths();
    reveal_strlit("command_palette");
    assert(ActionSchema::Normal(NormalModeActionSchema::EnterCommandPalette).id_of() == "command_palette"@);
    assert(schema_of_id("command_palette"@) == Some(ActionSchema::Normal(NormalModeActionSchema::EnterCommandPalette)));
}

proof fn lemma_own_id_15()
    ensures
        schema_of_id(ActionSchema::Normal(NormalModeActionSchema::DeleteMessage).id_of()) == Some(ActionSchema::Normal(NormalModeActionSchema::DeleteMessage)),
        ActionSchema::Normal(NormalModeActionSchema::DeleteMessage).id_of().len() > 0,
{
    lemma_id_lengths();
    reveal_strlit("delete_message");
    reveal_strlit("scroll_page_up");
    assert("delete_message"@[0] != "scroll_page_up"@[0]);
    reveal_strlit("append_message");
    assert("delete_message"@[0] != "append_message"@[0]);
    assert(ActionSchema::Normal(NormalModeActionSchema::DeleteMessage).id_of() == "delete_message"@);
    assert(schema_of_id("delete_message"@) == Some(ActionSchema::Normal(NormalModeActionSchema::DeleteMessage)));
}

proof fn lemma_own_id_16()
    ensures
        schema_of_id(ActionSchema::Normal(NormalModeActionSchema::ForkBranch).id_of()) == Some(ActionSchema::Normal(NormalModeActionSchema::ForkBranch)),
        ActionSchema::Normal(NormalModeActionSchema::ForkBranch).id_of().len() > 0,
{
    lemma_id_lengths();
    reveal_strlit("fork_branch");
    reveal_strlit("scroll_down");
    assert("fork_branch"@[0] != "scroll_down"@[0]);
    assert(ActionSchema::Normal(NormalModeActionSchema::ForkBranch).id_of() == "fork_branch"@);
    assert(schema_of_id("fork_branch"@) == Some(ActionSchema::Normal(NormalModeActionSchema::ForkBranch)));
}

proof fn lemma_own_id_17()
    ensures
        schema_of_id(ActionSchema::Normal(NormalModeActionSchema::HideMessage).id_of()) == Some(ActionSchema::Normal(NormalModeActionSchema::HideMessage)),
        ActionSchema::Normal(NormalModeActionSchema::HideMessage).id_of().len() > 0,
{
    lemma_id_lengths();
    reveal_strlit("hide_message");
    reveal_strlit("edit_message");
    assert("hide_message"@[0] != "edit_message"@[0]);
    assert(ActionSchema::Normal(NormalModeActionSchema::HideMessage).id_of() == "hide_message"@);
    assert(schema_of_id("hide_message"@) == Some(ActionSchema::Normal(NormalModeActionSchema::HideMessage)));
}

proof fn lemma_own_id_18()
    ensures
        schema_of_id(ActionSchema::Normal(NormalModeActionSchema::ShowMessage).id_of()) == Some(ActionSchema::Normal(NormalModeActionSchema::ShowMessage)),
        ActionSchema::Normal(NormalModeActionSchema::ShowMessage).id_of().len() > 0,
{
    lemma_id_lengths();
    reveal_strlit("show_message");
    reveal_strlit("edit_message");
    assert("show_message"@[0] != "edit_message"@[0]);
    reveal_strlit("hide_message");
    assert("show_message"@[0] != "hide_message"@[0]);
    assert(ActionSchema::Normal(NormalModeActionSchema::ShowMessage).id_of() == "show_message"@);
    assert(schema_of_id("show_message"@) == Some(ActionSchema::Normal(NormalModeActionSchema::ShowMessage)));
}

proof fn lemma_own_id_19()
    ensures
        schema_of_id(ActionSchema::Normal(NormalModeActionSchema::NextBranch).id_of()) == Some(ActionSchema::Normal(NormalModeActionSchema::NextBranch)),
        ActionSchema::Normal(NormalModeActionSchema::NextBranch).id_of().len() > 0,
{
    lemma_id_lengths();
    reveal_strlit("next_branch");
    reveal_strlit("scroll_down");
    assert("next_branch"@[0] != "scroll_down"@[0]);
    reveal_strlit("fork_branch");
    assert("next_branch"@[0] != "fork_branch"@[0]);
    assert(ActionSchema::Normal(NormalModeActionSchema::NextBranch).id_of() == "next_branch"@);
    assert(schema_of_id("next_branch"@) == Some(ActionSchema::Normal(NormalModeActionSchema::NextBranch)));
}

proof fn lemma_own_id_20()
    ensures
        schema_of_id(ActionSchema::Normal(NormalModeActionSchema::PrevBranch).id_of()) == Some(ActionSchema::Normal(NormalModeActionSchema::PrevBranch)),
        ActionSchema::Normal(NormalModeActionSchema::PrevBranch).id_of().len() > 0,
{
    lemma_id_lengths();
    reveal_strlit("prev_branch");
    reveal_strlit("scroll_down");
    assert("prev_branch"@[0] != "scroll_down"@[0]);
    reveal_strlit("fork_branch");
    assert("prev_branch"@[0] != "fork_branch"@[0]);
    reveal_strlit("next_branch");
    assert("prev_branch"@[0] != "next_branch"@[0]);
    assert(ActionSchema::Normal(NormalModeActionSchema::PrevBranch).id_of() == "prev_branch"@);
    assert(schema_of_id("prev_branch"@) == Some(ActionSchema::Normal(NormalModeActionSchema::PrevBranch)));
}

proof fn lemma_own_id_21()
    ensures
        schema_of_id(ActionSchema::Normal(NormalModeActionSchema::NextTree).id_of()) == Some(ActionSchema::Normal(NormalModeActionSchema::NextTree)),
        ActionSchema::Normal(NormalModeActionSchema::NextTree).id_of().len() > 0,
{
    lemma_id_lengths();
    reveal_strlit("next_tree");
    reveal_strlit("show_help");
    assert("next_tree"@[0] != "show_help"@[0]);
    reveal_strlit("scroll_up");
    assert("next_tree"@[0] != "scroll_up"@[0]);
    assert(ActionSchema::Normal(NormalModeActionSchema::NextTree).id_of() == "next_tree"@);
    assert(schema_of_id("next_tree"@) == Some(ActionSchema::Normal(NormalModeActionSchema::NextTree)));
}

proof fn lemma_own_id_22()
    ensures
        schema_of_id(ActionSchema::Normal(NormalModeActionSchema::PrevTree).id_of()) == Some(ActionSchema::Normal(NormalModeActionSchema::PrevTree)),
        ActionSchema::Normal(NormalModeActionSchema::PrevTree).id_of().len() > 0,
{
    lemma_id_lengths();
    reveal_strlit("prev_tree");
    reveal_strlit("show_help");
    assert("prev_tree"@[0] != "show_help"@[0]);
    reveal_strlit("scroll_up");
    assert("prev_tree"@[0] != "scroll_up"@[0]);
    reveal_strlit("next_tree");
    assert("prev_tree"@[0] != "next_tree"@[0]);
    assert(ActionSchema::Normal(NormalModeActionSchema::PrevTree).id_of() == "prev_tree"@);
    assert(schema_of_id("prev_tree"@) == Some(ActionSchema::Normal(NormalModeActionSchema::PrevTree)));
}

proof fn lemma_own_id_23()
    ensures
        schema_of_id(ActionSchema::Edit(EditModeActionSchema::DeleteChar).id_of()) == Some(ActionSchema::Edit(EditModeActionSchema::DeleteChar)),
        ActionSchema::Edit(EditModeActionSchema::DeleteChar).id_of().len() > 0,
{
    lemma_id_lengths();
    reveal_strlit("delete_char");
    reveal_strlit("scroll_down");
    assert("delete_char"@[0] != "scroll_down"@[0]);
    reveal_strlit("fork_branch");
    assert("delete_char"@[0] != "fork_branch"@[0]);
    reveal_strlit("next_branch");
    assert("delete_char"@[0] != "next_branch"@[0]);
    reveal_strlit("prev_branch");
    assert("delete_char"@[0] != "prev_branch"@[0]);
    assert(ActionSchema::Edit(EditModeActionSchema::DeleteChar).id_of() == "delete_char"@);
    assert(schema_of_id("delete_char"@) == Some(ActionSchema::Edit(EditModeActionSchema::DeleteChar)));
}

proof fn lemma_own_id_24()
    ensures
        schema_of_id(ActionSchema::Edit(EditModeActionSchema::DeleteNextChar).id_of()) == Some(ActionSchema::Edit(EditModeActionSchema::DeleteNextChar)),
        ActionSchema::Edit(EditModeActionSchema::DeleteNextChar).id_of().len() > 0,
{
    lemma_id_lengths();
    reveal_strlit("delete_next_char");
    reveal_strlit("scroll_page_down");
    assert("delete_next_char"@[0] != "scroll_page_down"@[0]);
    reveal_strlit("scroll_to_bottom");
    assert("delete_next_char"@[0] != "scroll_to_bottom"@[0]);
    assert(ActionSchema::Edit(EditModeActionSchema::DeleteNextChar).id_of() == "delete_next_char"@);
    assert(schema_of_id("delete_next_char"@) == Some(ActionSchema::Edit(EditModeActionSchema::DeleteNextChar)));
}

proof fn lemma_own_id_25()
    ensures
        schema_of_id(ActionSchema::Edit(EditModeActionSchema::InsertNewline).id_of()) == Some(ActionSchema::Edit(EditModeActionSchema::InsertNewline)),
        ActionSchema::Edit(EditModeActionSchema::InsertNewline).id_of().len() > 0,
{
    lemma_id_lengths();
    reveal_strlit("insert_newline");
    reveal_strlit("scroll_page_up");
    assert("insert_newline"@[0] != "scroll_page_up"@[0]);
    reveal_strlit("append_message");
    assert("insert_newline"@[0] != "append_message"@[0]);
    reveal_strlit("delete_message");
    assert("insert_newline"@[0] != "delete_message"@[0]);
    assert(ActionSchema::Edit(EditModeActionSchema::InsertNewline).id_of() == "insert_newline"@);
    assert(schema_of_id("insert_newline"@) == Some(ActionSchema::Edit(EditModeActionSchema::InsertNewline)));
}

proof fn lemma_own_id_26()
    ensures
        schema_of_id(ActionSchema::Edit(EditModeActionSchema::DeleteLineByEnd).id_of()) == Some(ActionSchema::Edit(EditModeActionSchema::DeleteLineByEnd)),
        ActionSchema::Edit(EditModeActionSchema::DeleteLineByEnd).id_of().len() > 0,
{
    lemma_id_lengths();
    reveal_strlit("delete_line_by_end");
    assert(ActionSchema::Edit(EditModeActionSchema::DeleteLineByEnd).id_of() == "delete_line_by_end"@);
    assert(schema_of_id("delete_line_by_end"@) == Some(ActionSchema::Edit(EditModeActionSchema::DeleteLineByEnd)));
}

proof fn lemma_own_id_27()
    ensures
        schema_of_id(ActionSchema::Edit(EditModeActionSchema::DeleteLineByHead).id_of()) == Some(ActionSchema::Edit(EditModeActionSchema::DeleteLineByHead)),
        ActionSchema::Edit(EditModeActionSchema::DeleteLineByHead).id_of().len() > 0,
{
    lemma_id_lengths();
    reveal_strlit("delete_line_by_head");
    reveal_strlit("scroll_half_page_up");
    assert("delete_line_by_head"@[0] != "scroll_half_page_up"@[0]);
    assert(ActionSchema::Edit(EditModeActionSchema::DeleteLineByHead).id_of() == "delete_line_by_head"@);
    assert(schema_of_id("delete_line_by_head"@) == Some(ActionSchema::Edit(EditModeActionSchema::DeleteLineByHead)));
}

proof fn lemma_own_id_28()
    ensures
        schema_of_id(ActionSchema::Edit(EditModeActionSchema::DeleteWord).id_of()) == Some(ActionSchema::Edit(EditModeActionSchema::DeleteWord)),
        ActionSchema::Edit(EditModeActionSchema::DeleteWord).id_of().len() > 0,
{
    lemma_id_lengths();
    reveal_strlit("delete_word");
    reveal_strlit("scroll_down");
    assert("delete_word"@[0] != "scroll_down"@[0]);
    reveal_strlit("fork_branch");
    assert("delete_word"@[0] != "fork_branch"@[0]);
    reveal_strlit("next_branch");
    assert("delete_word"@[0] != "next_branch"@[0]);
    reveal_strlit("prev_branch");
    assert("delete_word"@[0] != "prev_branch"@[0]);
    reveal_strlit("delete_char");
    assert("delete_word"@[7] != "delete_char"@[7]);
    assert(ActionSchema::Edit(EditModeActionSchema::DeleteWord).id_of() == "delete_word"@);
    assert(schema_of_id("delete_word"@) == Some(ActionSchema::Edit(EditModeActionSchema::DeleteWord)));
}

proof fn lemma_own_id_29()
    ensures
        schema_of_id(ActionSchema::Edit(EditModeActionSchema::DeleteNextWord).id_of()) == Some(ActionSchema::Edit(EditModeActionSchema::DeleteNextWord)),
        ActionSchema::Edit(EditModeActionSchema::DeleteNextWord).id_of().len() > 0,
{
    lemma_id_lengths();
    reveal_strlit("delete_next_word");
    reveal_strlit("scroll_page_down");
    assert("delete_next_word"@[0] != "scroll_page_down"@[0]);
    reveal_strlit("scroll_to_bottom");
    assert("delete_next_word"@[0] != "scroll_to_bottom"@[0]);
    reveal_strlit("delete_next_char");
    assert("delete_next_word"@[12] != "delete_next_char"@[12]);
    assert(ActionSchema::Edit(EditModeActionSchema::DeleteNextWord).id_of() == "delete_next_word"@);
    assert(schema_of_id("delete_next_word"@) == Some(ActionSchema::Edit(EditModeActionSchema::DeleteNextWord)));
}

proof fn lemma_own_id_30()
    ensures
        schema_of_id(ActionSchema::Edit(EditModeActionSchema::Undo).id_of()) == Some(ActionSchema::Edit(EditModeActionSchema::Undo)),
        ActionSchema::Edit(EditModeActionSchema::Undo).id_of().len() > 0,
{
    lemma_id_lengths();
    reveal_strlit("undo");
    reveal_strlit("quit");
    assert("undo"@[0] != "quit"@[0]);
    assert(ActionSchema::Edit(EditModeActionSchema::Undo).id_of() == "undo"@);
    assert(schema_of_id("undo"@) == Some(ActionSchema::Edit(EditModeActionSchema::Undo)));
}

proof fn lemma_own_id_31()
    ensures
        schema_of_id(ActionSchema::Edit(EditModeActionSchema::Redo).id_of()) == Some(ActionSchema::Edit(EditModeActionSchema::Redo)),
        ActionSchema::Edit(EditModeActionSchema::Redo).id_of().len() > 0,
{
    lemma_id_lengths();
    reveal_strlit("redo");
    reveal_strlit("quit");
    assert("redo"@[0] != "quit"@[0]);
    reveal_strlit("undo");
    assert("redo"@[0] != "undo"@[0]);
    assert(ActionSchema::Edit(EditModeActionSchema::Redo).id_of() == "redo"@);
    assert(schema_of_id("redo"@) == Some(ActionSchema::Edit(EditModeActionSchema::Redo)));
}

proof fn lemma_own_id_32()
    ensures
        schema_of_id(ActionSchema::Edit(EditModeActionSchema::Copy).id_of()) == Some(ActionSchema::Edit(EditModeActionSchema::Copy)),
        ActionSchema::Edit(EditModeActionSchema::Copy).id_of().len() > 0,
{
    lemma_id_lengths();
    reveal_strlit("copy");
    reveal_strlit("quit");
    assert("copy"@[0] != "quit"@[0]);
    reveal_strlit("undo");
    assert("copy"@[0] != "undo"@[0]);
    reveal_strlit("redo");
    assert("copy"@[0] != "redo"@[0]);
    assert(ActionSchema::Edit(EditModeActionSchema::Copy).id_of() == "copy"@);
    assert(schema_of_id("copy"@) == Some(ActionSchema::Edit(EditModeActionSchema::Copy)));
}

proof fn lemma_own_id_33()
    ensures
        schema_of_id(ActionSchema::Edit(EditModeActionSchema::Cut).id_of()) == Some(ActionSchema::Edit(EditModeActionSchema::Cut)),
        ActionSchema::Edit(EditModeActionSchema::Cut).id_of().len() > 0,
{
    lemma_id_lengths();
    reveal_strlit("cut");
    assert(ActionSchema::Edit(EditModeActionSchema::Cut).id_of() == "cut"@);
    assert(schema_of_id("cut"@) == Some(ActionSchema::Edit(EditModeActionSchema::Cut)));
}

proof fn lemma_own_id_34()
    ensures
        schema_of_id(ActionSchema::Edit(EditModeActionSchema::Paste).id_of()) == Some(ActionSchema::Edit(EditModeActionSchema::Paste)),
        ActionSchema::Edit(EditModeActionSchema::Paste).id_of().len() > 0,
{
    lemma_id_lengths();
    reveal_strlit("paste");
    assert(ActionSchema::Edit(EditModeActionSchema::Paste).id_of() == "paste"@);
    assert(schema_of_id("paste"@) == Some(ActionSchema::Edit(EditModeActionSchema::Paste)));
}

proof fn lemma_own_id_35()
    ensures
        schema_of_id(ActionSchema::Edit(EditModeActionSchema::SelectAll).id_of()) == Some(ActionSchema::Edit(EditModeActionSchema::SelectAll)),
        ActionSchema::Edit(EditModeActionSchema::SelectAll).id_of().len() > 0,
{
    lemma_id_lengths();
    reveal_strlit("select_all");
    assert(ActionSchema::Edit(EditModeActionSchema::SelectAll).id_of() == "select_all"@);
    assert(schema_of_id("select_all"@) == Some(ActionSchema::Edit(EditModeActionSchema::SelectAll)));
}

proof fn lemma_own_id_36()
    ensures
        schema_of_id(ActionSchema::Edit(EditModeActionSchema::SelectForward).id_of()) == Some(ActionSchema::Edit(EditModeActionSchema::SelectForward)),
        ActionSchema::Edit(EditModeActionSchema::SelectForward).id_of().len() > 0,
{
    lemma_id_lengths();
    reveal_strlit("select_forward");
    reveal_strlit("scroll_page_up");
    assert("select_forward"@[1] != "scroll_page_up"@[1]);
    reveal_strlit("append_message");
    assert("select_forward"@[0] != "append_message"@[0]);
    reveal_strlit("delete_message");
    assert("select_forward"@[0] != "delete_message"@[0]);
    reveal_strlit("insert_newline");
    assert("select_forward"@[0] != "insert_newline"@[0]);
    assert(ActionSchema::Edit(EditModeActionSchema::SelectForward).id_of() == "select_forward"@);
    assert(schema_of_id("select_forward"@) == Some(ActionSchema::Edit(EditModeActionSchema::SelectForward)));
}

proof fn lemma_own_id_37()
    ensures
        schema_of_id(ActionSchema::Edit(EditModeActionSchema::SelectBack).id_of()) == Some(ActionSchema::Edit(EditModeActionSchema::SelectBack)),
        ActionSchema::Edit(EditModeActionSchema::SelectBack).id_of().len() > 0,
{
    lemma_id_lengths();
    reveal_strlit("select_back");
    reveal_strlit("scroll_down");
    assert("select_back"@[1] != "scroll_down"@[1]);
    reveal_strlit("fork_branch");
    assert("select_back"@[0] != "fork_branch"@[0]);
    reveal_strlit("next_branch");
    assert("select_back"@[0] != "next_branch"@[0]);
    reveal_strlit("prev_branch");
    assert("select_back"@[0] != "prev_branch"@[0]);
    reveal_strlit("delete_char");
    assert("select_back"@[0] != "delete_char"@[0]);
    reveal_strlit("delete_word");
    assert("select_back"@[0] != "delete_word"@[0]);
    assert(ActionSchema::Edit(EditModeActionSchema::SelectBack).id_of() == "select_back"@);
    assert(schema_of_id("select_back"@) == Some(ActionSchema::Edit(EditModeActionSchema::SelectBack)));
}

proof fn lemma_own_id_38()
    ensures
        schema_of_id(ActionSchema::Edit(EditModeActionSchema::SelectUp).id_of()) == Some(ActionSchema::Edit(EditModeActionSchema::SelectUp)),
        ActionSchema::Edit(EditModeActionSchema::SelectUp).id_of().len() > 0,
{
    lemma_id_lengths();
    reveal_strlit("select_up");
    reveal_strlit("show_help");
    assert("select_up"@[1] != "show_help"@[1]);
    reveal_strlit("scroll_up");
    assert("select_up"@[1] != "scroll_up"@[1]);
    reveal_strlit("next_tree");
    assert("select_up"@[0] != "next_tree"@[0]);
    reveal_strlit("prev_tree");
    assert("select_up"@[0] != "prev_tree"@[0]);
    assert(ActionSchema::Edit(EditModeActionSchema::SelectUp).id_of() == "select_up"@);
    assert(schema_of_id("select_up"@) == Some(ActionSchema::Edit(EditModeActionSchema::SelectUp)));
}

proof fn lemma_own_id_39()
    ensures
        schema_of_id(ActionSchema::Edit(EditModeActionSchema::SelectDown).id_of()) == Some(ActionSchema::Edit(EditModeActionSchema::SelectDown)),
        ActionSchema::Edit(EditModeActionSchema::SelectDown).id_of().len() > 0,
{
    lemma_id_lengths();
    reveal_strlit("select_down");
    reveal_strlit("scroll_down");
    assert("select_down"@[1] != "scroll_down"@[1]);
    reveal_strlit("fork_branch");
    assert("select_down"@[0] != "fork_branch"@[0]);
    reveal_strlit("next_branch");
    assert("select_down"@[0] != "next_branch"@[0]);
    reveal_strlit("prev_branch");
    assert("select_down"@[0] != "prev_branch"@[0]);
    reveal_strlit("delete_char");
    assert("select_down"@[0] != "delete_char"@[0]);
    reveal_strlit("delete_word");
    assert("select_down"@[0] != "delete_word"@[0]);
    reveal_strlit("select_back");
    assert("select_down"@[7] != "select_back"@[7]);
    assert(ActionSchema::Edit(EditModeActionSchema::SelectDown).id_of() == "select_down"@);
    assert(schema_of_id("select_down"@) == Some(ActionSchema::Edit(EditModeActionSchema::SelectDown)));
}

proof fn lemma_own_id_40()
    ensures
        schema_of_id(ActionSchema::Edit(EditModeActionSchema::SelectWordForward).id_of()) == Some(ActionSchema::Edit(EditModeActionSchema::SelectWordForward)),
        ActionSchema::Edit(EditModeActionSchema::SelectWordForward).id_of().len() > 0,
{
    lemma_id_lengths();
    reveal_strlit("select_word_forward");
    reveal_strlit("scroll_half_page_up");
    assert("select_word_forward"@[1] != "scroll_half_page_up"@[1]);
    reveal_strlit("delete_line_by_head");
    assert("select_word_forward"@[0] != "delete_line_by_head"@[0]);
    assert(ActionSchema::Edit(EditModeActionSchema::SelectWordForward).id_of() == "select_word_forward"@);
    assert(schema_of_id("select_word_forward"@) == Some(ActionSchema::Edit(EditModeActionSchema::SelectWordForward)));
}

proof fn lemma_own_id_41()
    ensures
        schema_of_id(ActionSchema::Edit(EditModeActionSchema::SelectWordBack).id_of()) == Some(ActionSchema::Edit(EditModeActionSchema::SelectWordBack)),
        ActionSchema::Edit(EditModeActionSchema::SelectWordBack).id_of().len() > 0,
{
    lemma_id_lengths();
    reveal_strlit("select_word_back");
    reveal_strlit("scroll_page_down");
    assert("select_word_back"@[1] != "scroll_page_down"@[1]);
    reveal_strlit("scroll_to_bottom");
    assert("select_word_back"@[1] != "scroll_to_bottom"@[1]);
    reveal_strlit("delete_next_char");
    assert("select_word_back"@[0] != "delete_next_char"@[0]);
    reveal_strlit("delete_next_word");
    assert("select_word_back"@[0] != "delete_next_word"@[0]);
    assert(ActionSchema::Edit(EditModeActionSchema::SelectWordBack).id_of() == "select_word_back"@);
    assert(schema_of_id("select_word_back"@) == Some(ActionSchema::Edit(EditModeActionSchema::SelectWordBack)));
}

proof fn lemma_own_id_42()
    ensures
        schema_of_id(ActionSchema::Edit(EditModeActionSchema::SelectToEnd).id_of()) == Some(ActionSchema::Edit(EditModeActionSchema::SelectToEnd)),
        ActionSchema::Edit(EditModeActionSchema::SelectToEnd).id_of().len() > 0,
{
    lemma_id_lengths();
    reveal_strlit("select_to_end");
    reveal_strlit("scroll_to_top");
    assert("select_to_end"@[1] != "scroll_to_top"@[1]);
    assert(ActionSchema::Edit(EditModeActionSchema::SelectToEnd).id_of() == "select_to_end"@);
    assert(schema_of_id("select_to_end"@) == Some(ActionSchema::Edit(EditModeActionSchema::SelectToEnd)));
}

proof fn lemma_own_id_43()
    ensures
        schema_of_id(ActionSchema::Edit(EditModeActionSchema::SelectToHead).id_of()) == Some(ActionSchema::Edit(EditModeActionSchema::SelectToHead)),
        ActionSchema::Edit(EditModeActionSchema::SelectToHead).id_of().len() > 0,
{
    lemma_id_lengths();
    reveal_strlit("select_to_head");
    reveal_strlit("scroll_page_up");
    assert("select_to_head"@[1] != "scroll_page_up"@[1]);
    reveal_strlit("append_message");
    assert("select_to_head"@[0] != "append_message"@[0]);
    reveal_strlit("delete_message");
    assert("select_to_head"@[0] != "delete_message"@[0]);
    reveal_strlit("insert_newline");
    assert("select_to_head"@[0] != "insert_newline"@[0]);
    reveal_strlit("select_forward");
    assert("select_to_head"@[7] != "select_forward"@[7]);
    assert(ActionSchema::Edit(EditModeActionSchema::SelectToHead).id_of() == "select_to_head"@);
    assert(schema_of_id("select_to_head"@) == Some(ActionSchema::Edit(EditModeActionSchema::SelectToHead)));
}

proof fn lemma_own_id_44()
    ensures
        schema_of_id(ActionSchema::Edit(EditModeActionSchema::MoveCursorForward).id_of()) == Some(ActionSchema::Edit(EditModeActionSchema::MoveCursorForward)),
        ActionSchema::Edit(EditModeActionSchema::MoveCursorForward).id_of().len() > 0,
{
    lemma_id_lengths();
    reveal_strlit("move_cursor_forward");
    reveal_strlit("scroll_half_page_up");
    assert("move_cursor_forward"@[0] != "scroll_half_page_up"@[0]);
    reveal_strlit("delete_line_by_head");
    assert("move_cursor_forward"@[0] != "delete_line_by_head"@[0]);
    reveal_strlit("select_word_forward");
    assert("move_cursor_forward"@[0] != "select_word_forward"@[0]);
    assert(ActionSchema::Edit(EditModeActionSchema::MoveCursorForward).id_of() == "move_cursor_forward"@);
    assert(schema_of_id("move_cursor_forward"@) == Some(ActionSchema::Edit(EditModeActionSchema::MoveCursorForward)));
}

proof fn lemma_own_id_45()
    ensures
        schema_of_id(ActionSchema::Edit(EditModeActionSchema::MoveCursorBack).id_of()) == Some(ActionSchema::Edit(EditModeActionSchema::MoveCursorBack)),
        ActionSchema::Edit(EditModeActionSchema::MoveCursorBack).id_of().len() > 0,
{
    lemma_id_lengths();
    reveal_strlit("move_cursor_back");
    reveal_strlit("scroll_page_down");
    assert("move_cursor_back"@[0] != "scroll_page_down"@[0]);
    reveal_strlit("scroll_to_bottom");
    assert("move_cursor_back"@[0] != "scroll_to_bottom"@[0]);
    reveal_strlit("delete_next_char");
    assert("move_cursor_back"@[0] != "delete_next_char"@[0]);
    reveal_strlit("delete_next_word");
    assert("move_cursor_back"@[0] != "delete_next_word"@[0]);
    reveal_strlit("select_word_back");
    assert("move_cursor_back"@[0] != "select_word_back"@[0]);
    assert(ActionSchema::Edit(EditModeActionSchema::MoveCursorBack).id_of() == "move_cursor_back"@);
    assert(schema_of_id("move_cursor_back"@) == Some(ActionSchema::Edit(EditModeActionSchema::MoveCursorBack)));
}

proof fn lemma_own_id_46()
    ensures
        schema_of_id(ActionSchema::Edit(EditModeActionSchema::MoveCursorUp).id_of()) == Some(ActionSchema::Edit(EditModeActionSchema::MoveCursorUp)),
        ActionSchema::Edit(EditModeActionSchema::MoveCursorUp).id_of().len() > 0,
{
    lemma_id_lengths();
    reveal_strlit("move_cursor_up");
    reveal_strlit("scroll_page_up");
    assert("move_cursor_up"@[0] != "scroll_page_up"@[0]);
    reveal_strlit("append_message");
    assert("move_cursor_up"@[0] != "append_message"@[0]);
    reveal_strlit("delete_message");
    assert("move_cursor_up"@[0] != "delete_message"@[0]);
    reveal_strlit("insert_newline");
    assert("move_cursor_up"@[0] != "insert_newline"@[0]);
    reveal_strlit("select_forward");
    assert("move_cursor_up"@[0] != "select_forward"@[0]);
    reveal_strlit("select_to_head");
    assert("move_cursor_up"@[0] != "select_to_head"@[0]);
    assert(ActionSchema::Edit(EditModeActionSchema::MoveCursorUp).id_of() == "move_cursor_up"@);
    assert(schema_of_id("move_cursor_up"@) == Some(ActionSchema::Edit(EditModeActionSchema::MoveCursorUp)));
}

proof fn lemma_own_id_47()
    ensures
        schema_of_id(ActionSchema::Edit(EditModeActionSchema::MoveCursorDown).id_of()) == Some(ActionSchema::Edit(EditModeActionSchema::MoveCursorDown)),
        ActionSchema::Edit(EditModeActionSchema::MoveCursorDown).id_of().len() > 0,
{
    lemma_id_lengths();
    reveal_strlit("move_cursor_down");
    reveal_strlit("scroll_page_down");
    assert("move_cursor_down"@[0] != "scroll_page_down"@[0]);
    reveal_strlit("scroll_to_bottom");
    assert("move_cursor_down"@[0] != "scroll_to_bottom"@[0]);
    reveal_strlit("delete_next_char");
    assert("move_cursor_down"@[0] != "delete_next_char"@[0]);
    reveal_strlit("delete_next_word");
    assert("move_cursor_down"@[0] != "delete_next_word"@[0]);
    reveal_strlit("select_word_back");
    assert("move_cursor_down"@[0] != "select_word_back"@[0]);
    reveal_strlit("move_cursor_back");
    assert("move_cursor_down"@[12] != "move_cursor_back"@[12]);
    assert(ActionSchema::Edit(EditModeActionSchema::MoveCursorDown).id_of() == "move_cursor_down"@);
    assert(schema_of_id("move_cursor_down"@) == Some(ActionSchema::Edit(EditModeActionSchema::MoveCursorDown)));
}

proof fn lemma_own_id_48()
    ensures
        schema_of_id(ActionSchema::Edit(EditModeActionSchema::MoveCursorWordForward).id_of()) == Some(ActionSchema::Edit(EditModeActionSchema::MoveCursorWordForward)),
        ActionSchema::Edit(EditModeActionSchema::MoveCursorWordForward).id_of().len() > 0,
{
    lemma_id_lengths();
    reveal_strlit("move_cursor_word_forward");
    assert(ActionSchema::Edit(EditModeActionSchema::MoveCursorWordForward).id_of() == "move_cursor_word_forward"@);
    assert(schema_of_id("move_cursor_word_forward"@) == Some(ActionSchema::Edit(EditModeActionSchema::MoveCursorWordForward)));
}

proof fn lemma_own_id_49()
    ensures
        schema_of_id(ActionSchema::Edit(EditModeActionSchema::MoveCursorWordEnd).id_of()) == Some(ActionSchema::Edit(EditModeActionSchema::MoveCursorWordEnd)),
        ActionSchema::Edit(EditModeActionSchema::MoveCursorWordEnd).id_of().len() > 0,
{
    lemma_id_lengths();
    reveal_strlit("move_cursor_word_end");
    assert(ActionSchema::Edit(EditModeActionSchema::MoveCursorWordEnd).id_of() == "move_cursor_word_end"@);
    assert(schema_of_id("move_cursor_word_end"@) == Some(ActionSchema::Edit(EditModeActionSchema::MoveCursorWordEnd)));
}

proof fn lemma_own_id_50()
    ensures
        schema_of_id(ActionSchema::Edit(EditModeActionSchema::MoveCursorWordBack).id_of()) == Some(ActionSchema::Edit(EditModeActionSchema::MoveCursorWordBack)),
        ActionSchema::Edit(EditModeActionSchema::MoveCursorWordBack).id_of().len() > 0,
{
    lemma_id_lengths();
    reveal_strlit("move_cursor_word_back");
    reveal_strlit("scroll_half_page_down");
    assert("move_cursor_word_back"@[0] != "scroll_half_page_down"@[0]);
    assert(ActionSchema::Edit(EditModeActionSchema::MoveCursorWordBack).id_of() == "move_cursor_word_back"@);
    assert(schema_of_id("move_cursor_word_back"@) == Some(ActionSchema::Edit(EditModeActionSchema::MoveCursorWordBack)));
}

proof fn lemma_own_id_51()
    ensures
        schema_of_id(ActionSchema::Edit(EditModeActionSchema::MoveCursorParagraphForward).id_of()) == Some(ActionSchema::Edit(EditModeActionSchema::MoveCursorParagraphForward)),
        ActionSchema::Edit(EditModeActionSchema::MoveCursorParagraphForward).id_of().len() > 0,
{
    lemma_id_lengths();
    reveal_strlit("move_cursor_paragraph_forward");
    assert(ActionSchema::Edit(EditModeActionSchema::MoveCursorParagraphForward).id_of() == "move_cursor_paragraph_forward"@);
    assert(schema_of_id("move_cursor_paragraph_forward"@) == Some(ActionSchema::Edit(EditModeActionSchema::MoveCursorParagraphForward)));
}

proof fn lemma_own_id_52()
    ensures
        schema_of_id(ActionSchema::Edit(EditModeActionSchema::MoveCursorParagraphBack).id_of()) == Some(ActionSchema::Edit(EditModeActionSchema::MoveCursorParagraphBack)),
        ActionSchema::Edit(EditModeActionSchema::MoveCursorParagraphBack).id_of().len() > 0,
{
    lemma_id_lengths();
    reveal_strlit("move_cursor_paragraph_back");
    reveal_strlit("scroll_to_previous_message");
    assert("move_cursor_paragraph_back"@[0] != "scroll_to_previous_message"@[0]);
    assert(ActionSchema::Edit(EditModeActionSchema::MoveCursorParagraphBack).id_of() == "move_cursor_paragraph_back"@);
    assert(schema_of_id("move_cursor_paragraph_back"@) == Some(ActionSchema::Edit(EditModeActionSchema::MoveCursorParagraphBack)));
}

proof fn lemma_own_id_53()
    ensures
        schema_of_id(ActionSchema::Edit(EditModeActionSchema::MoveCursorEnd).id_of()) == Some(ActionSchema::Edit(EditModeActionSchema::MoveCursorEnd)),
        ActionSchema::Edit(EditModeActionSchema::MoveCursorEnd).id_of().len() > 0,
{
    lemma_id_lengths();
    reveal_strlit("move_cursor_end");
    reveal_strlit("command_palette");
    assert("move_cursor_end"@[0] != "command_palette"@[0]);
    assert(ActionSchema::Edit(EditModeActionSchema::MoveCursorEnd).id_of() == "move_cursor_end"@);
    assert(schema_of_id("move_cursor_end"@) == Some(ActionSchema::Edit(EditModeActionSchema::MoveCursorEnd)));
}

proof fn lemma_own_id_54()
    ensures
        schema_of_id(ActionSchema::Edit(EditModeActionSchema::MoveCursorHead).id_of()) == Some(ActionSchema::Edit(EditModeActionSchema::MoveCursorHead)),
        ActionSchema::Edit(EditModeActionSchema::MoveCursorHead).id_of().len() > 0,
{
    lemma_id_lengths();
    reveal_strlit("move_cursor_head");
    reveal_strlit("scroll_page_down");
    assert("move_cursor_head"@[0] != "scroll_page_down"@[0]);
    reveal_strlit("scroll_to_bottom");
    assert("move_cursor_head"@[0] != "scroll_to_bottom"@[0]);
    reveal_strlit("delete_next_char");
    assert("move_cursor_head"@[0] != "delete_next_char"@[0]);
    reveal_strlit("delete_next_word");
    assert("move_cursor_head"@[0] != "delete_next_word"@[0]);
    reveal_strlit("select_word_back");
    assert("move_cursor_head"@[0] != "select_word_back"@[0]);
    reveal_strlit("move_cursor_back");
    assert("move_cursor_head"@[12] != "move_cursor_back"@[12]);
    reveal_strlit("move_cursor_down");
    assert("move_cursor_head"@[12] != "move_cursor_down"@[12]);
    assert(ActionSchema::Edit(EditModeActionSchema::MoveCursorHead).id_of() == "move_cursor_head"@);
    assert(schema_of_id("move_cursor_head"@) == Some(ActionSchema::Edit(EditModeActionSchema::MoveCursorHead)));
}

proof fn lemma_own_id_55()
    ensures
        schema_of_id(ActionSchema::Edit(EditModeActionSchema::MoveCursorTop).id_of()) == Some(ActionSchema::Edit(EditModeActionSchema::MoveCursorTop)),
        ActionSchema::Edit(EditModeActionSchema::MoveCursorTop).id_of().len() > 0,
{
    lemma_id_lengths();
    reveal_strlit("move_cursor_top");
    reveal_strlit("command_palette");
    assert("move_cursor_top"@[0] != "command_palette"@[0]);
    reveal_strlit("move_cursor_end");
    assert("move_cursor_top"@[12] != "move_cursor_end"@[12]);
    assert(ActionSchema::Edit(EditModeActionSchema::MoveCursorTop).id_of() == "move_cursor_top"@);
    assert(schema_of_id("move_cursor_top"@) == Some(ActionSchema::Edit(EditModeActionSchema::MoveCursorTop)));
}

proof fn lemma_own_id_56()
    ensures
        schema_of_id(ActionSchema::Edit(EditModeActionSchema::MoveCursorBottom).id_of()) == Some(ActionSchema::Edit(EditModeActionSchema::MoveCursorBottom)),
        ActionSchema::Edit(EditModeActionSchema::MoveCursorBottom).id_of().len() > 0,
{
    lemma_id_lengths();
    reveal_strlit("move_cursor_bottom");
    reveal_strlit("delete_line_by_end");
    assert("move_cursor_bottom"@[0] != "delete_line_by_end"@[0]);
    assert(ActionSchema::Edit(EditModeActionSchema::MoveCursorBottom).id_of() == "move_cursor_bottom"@);
    assert(schema_of_id("move_cursor_bottom"@) == Some(ActionSchema::Edit(EditModeActionSchema::MoveCursorBottom)));
}

proof fn lemma_own_id_57()
    ensures
        schema_of_id(ActionSchema::Edit(EditModeActionSchema::MoveCursorInViewport).id_of()) == Some(ActionSchema::Edit(EditModeActionSchema::MoveCursorInViewport)),
        ActionSchema::Edit(EditModeActionSchema::MoveCursorInViewport).id_of().len() > 0,
{
    lemma_id_lengths();
    reveal_strlit("move_cursor_in_viewport");
    assert(ActionSchema::Edit(EditModeActionSchema::MoveCursorInViewport).id_of() == "move_cursor_in_viewport"@);
    assert(schema_of_id("move_cursor_in_viewport"@) == Some(ActionSchema::Edit(EditModeActionSchema::MoveCursorInViewport)));
}

proof fn lemma_own_id_58()
    ensures
        schema_of_id(ActionSchema::Edit(EditModeActionSchema::ExitCurrentMode).id_of()) == Some(ActionSchema::Edit(EditModeActionSchema::ExitCurrentMode)),
        ActionSchema::Edit(EditModeActionSchema::ExitCurrentMode).id_of().len() > 0,
{
    lemma_id_lengths();
    reveal_strlit("exit_mode");
    reveal_strlit("show_help");
    assert("exit_mode"@[0] != "show_help"@[0]);
    reveal_strlit("scroll_up");
    assert("exit_mode"@[0] != "scroll_up"@[0]);
    reveal_strlit("next_tree");
    assert("exit_mode"@[0] != "next_tree"@[0]);
    reveal_strlit("prev_tree");
    assert("exit_mode"@[0] != "prev_tree"@[0]);
    reveal_strlit("select_up");
    assert("exit_mode"@[0] != "select_up"@[0]);
    assert(ActionSchema::Edit(EditModeActionSchema::ExitCurrentMode).id_of() == "exit_mode"@);
    assert(schema_of_id("exit_mode"@) == Some(ActionSchema::Edit(EditModeActionSchema::ExitCurrentMode)));
}

proof fn lemma_own_id_59()
    ensures
        schema_of_id(ActionSchema::Edit(EditModeActionSchema::SubmitMessage).id_of()) == Some(ActionSchema::Edit(EditModeActionSchema::SubmitMessage)),
        ActionSchema::Edit(EditModeActionSchema::SubmitMessage).id_of().len() > 0,
{
    lemma_id_lengths();
    reveal_strlit("submit_message");
    reveal_strlit("scroll_page_up");
    assert("submit_message"@[1] != "scroll_page_up"@[1]);
    reveal_strlit("append_message");
    assert("submit_message"@[0] != "append_message"@[0]);
    reveal_strlit("delete_message");
    assert("submit_message"@[0] != "delete_message"@[0]);
    reveal_strlit("insert_newline");
    assert("submit_message"@[0] != "insert_newline"@[0]);
    reveal_strlit("select_forward");
    assert("submit_message"@[1] != "select_forward"@[1]);
    reveal_strlit("select_to_head");
    assert("submit_message"@[1] != "select_to_head"@[1]);
    reveal_strlit("move_cursor_up");
    assert("submit_message"@[0] != "move_cursor_up"@[0]);
    assert(ActionSchema::Edit(EditModeActionSchema::SubmitMessage).id_of() == "submit_message"@);
    assert(schema_of_id("submit_message"@) == Some(ActionSchema::Edit(EditModeActionSchema::SubmitMessage)));
}

/// Each schema is found by its own identifier, which is not empty.
pub proof fn lemma_schema_of_own_id(s: ActionSchema)
    ensures
        schema_of_id(s.id_of()) == Some(s),
        s.id_of().len() > 0,
{
    match s {
        ActionSchema::Common(CommonActionSchema::Quit) => lemma_own_id_0(),
        ActionSchema::Common(CommonActionSchema::ShowHelp) => lemma_own_id_1(),
        ActionSchema::Normal(NormalModeActionSchema::ScrollUp) => lemma_own_id_2(),
        ActionSchema::Normal(NormalModeActionSchema::ScrollDown) => lemma_own_id_3(),
        ActionSchema::Normal(NormalModeActionSchema::ScrollHalfPageUp) => lemma_own_id_4(),
        ActionSchema::Normal(NormalModeActionSchema::ScrollHalfPageDown) => lemma_own_id_5(),
        ActionSchema::Normal(NormalModeActionSchema::ScrollPageUp) => lemma_own_id_6(),
        ActionSchema::Normal(NormalModeActionSchema::ScrollPageDown) => lemma_own_id_7(),
        ActionSchema::Normal(NormalModeActionSchema::ScrollToTop) => lemma_own_id_8(),
        ActionSchema::Normal(NormalModeActionSchema::ScrollToBottom) => lemma_own_id_9(),
        ActionSchema::Normal(NormalModeActionSchema::ScrollToPreviousMessage) => lemma_own_id_10(),
        ActionSchema::Normal(NormalModeActionSchema::ScrollToNextMessage) => lemma_own_id_11(),
        ActionSchema::Normal(NormalModeActionSchema::EnterEditMode) => lemma_own_id_12(),
        ActionSchema::Normal(NormalModeActionSchema::EnterAppendMode) => lemma_own_id_13(),
        ActionSchema::Normal(NormalModeActionSchema::EnterCommandPalette) => lemma_own_id_14(),
        ActionSchema::Normal(NormalModeActionSchema::DeleteMessage) => lemma_own_id_15(),
        ActionSchema::Normal(NormalModeActionSchema::ForkBranch) => lemma_own_id_16(),
        ActionSchema::Normal(NormalModeActionSchema::HideMessage) => lemma_own_id_17(),
        ActionSchema::Normal(NormalModeActionSchema::ShowMessage) => lemma_own_id_18(),
        ActionSchema::Normal(NormalModeActionSchema::NextBranch) => lemma_own_id_19(),
        ActionSchema::Normal(NormalModeActionSchema::PrevBranch) => lemma_own_id_20(),
        ActionSchema::Normal(NormalModeActionSchema::NextTree) => lemma_own_id_21(),
        ActionSchema::Normal(NormalModeActionSchema::PrevTree) => lemma_own_id_22(),
        ActionSchema::Edit(EditModeActionSchema::DeleteChar) => lemma_own_id_23(),
        ActionSchema::Edit(EditModeActionSchema::DeleteNextChar) => lemma_own_id_24(),
        ActionSchema::Edit(EditModeActionSchema::InsertNewline) => lemma_own_id_25(),
        ActionSchema::Edit(EditModeActionSchema::DeleteLineByEnd) => lemma_own_id_26(),
        ActionSchema::Edit(EditModeActionSchema::DeleteLineByHead) => lemma_own_id_27(),
        ActionSchema::Edit(EditModeActionSchema::DeleteWord) => lemma_own_id_28(),
        ActionSchema::Edit(EditModeActionSchema::DeleteNextWord) => lemma_own_id_29(),
        ActionSchema::Edit(EditModeActionSchema::Undo) => lemma_own_id_30(),
        ActionSchema::Edit(EditModeActionSchema::Redo) => lemma_own_id_31(),
        ActionSchema::Edit(EditModeActionSchema::Copy) => lemma_own_id_32(),
        ActionSchema::Edit(EditModeActionSchema::Cut) => lemma_own_id_33(),
        ActionSchema::Edit(EditModeActionSchema::Paste) => lemma_own_id_34(),
        ActionSchema::Edit(EditModeActionSchema::SelectAll) => lemma_own_id_35(),
        ActionSchema::Edit(EditModeActionSchema::SelectForward) => lemma_own_id_36(),
        ActionSchema::Edit(EditModeActionSchema::SelectBack) => lemma_own_id_37(),
        ActionSchema::Edit(EditModeActionSchema::SelectUp) => lemma_own_id_38(),
        ActionSchema::Edit(EditModeActionSchema::SelectDown) => lemma_own_id_39(),
        ActionSchema::Edit(EditModeActionSchema::SelectWordForward) => lemma_own_id_40(),
        ActionSchema::Edit(EditModeActionSchema::SelectWordBack) => lemma_own_id_41(),
        ActionSchema::Edit(EditModeActionSchema::SelectToEnd) => lemma_own_id_42(),
        ActionSchema::Edit(EditModeActionSchema::SelectToHead) => lemma_own_id_43(),
        ActionSchema::Edit(EditModeActionSchema::MoveCursorForward) => lemma_own_id_44(),
        ActionSchema::Edit(EditModeActionSchema::MoveCursorBack) => lemma_own_id_45(),
        ActionSchema::Edit(EditModeActionSchema::MoveCursorUp) => lemma_own_id_46(),
        ActionSchema::Edit(EditModeActionSchema::MoveCursorDown) => lemma_own_id_47(),
        ActionSchema::Edit(EditModeActionSchema::MoveCursorWordForward) => lemma_own_id_48(),
        ActionSchema::Edit(EditModeActionSchema::MoveCursorWordEnd) => lemma_own_id_49(),
        ActionSchema::Edit(EditModeActionSchema::MoveCursorWordBack) => lemma_own_id_50(),
        ActionSchema::Edit(EditModeActionSchema::MoveCursorParagraphForward) => lemma_own_id_51(),
        ActionSchema::Edit(EditModeActionSchema::MoveCursorParagraphBack) => lemma_own_id_52(),
        ActionSchema::Edit(EditModeActionSchema::MoveCursorEnd) => lemma_own_id_53(),
        ActionSchema::Edit(EditModeActionSchema::MoveCursorHead) => lemma_own_id_54(),
        ActionSchema::Edit(EditModeActionSchema::MoveCursorTop) => lemma_own_id_55(),
        ActionSchema::Edit(EditModeActionSchema::MoveCursorBottom) => lemma_own_id_56(),
        ActionSchema::Edit(EditModeActionSchema::MoveCursorInViewport) => lemma_own_id_57(),
        ActionSchema::Edit(EditModeActionSchema::ExitCurrentMode) => lemma_own_id_58(),
        ActionSchema::Edit(EditModeActionSchema::SubmitMessage) => lemma_own_id_59(),
    }
}

/// Each schema stands in the registry at its position.
pub proof fn lemma_schema_position(s: ActionSchema)
    ensures
        0 <= schema_position(s) < registered_schemas().len(),
        registered_schemas()[schema_position(s)] == s,
{
    let c = CommonActionSchema::all_schemas().map_values(|a| ActionSchema::Common(a));
    let n = NormalModeActionSchema::all_schemas().map_values(|a| ActionSchema::Normal(a));
    let e = EditModeActionSchema::all_schemas().map_values(|a| ActionSchema::Edit(a));
    assert(registered_schemas() == c + n + e);
    match s {
        ActionSchema::Common(a) => {
            assert(c[schema_position(s)] == s);
        },
        ActionSchema::Normal(a) => {
            assert(n[schema_position(s) - 2] == s);
        },
        ActionSchema::Edit(a) => {
            assert(e[schema_position(s) - 23] == s);
        },
    }
}

/// Whether `p` is the last position holding a schema with identifier `id`; a schema
/// registered later under the same identifier replaces an earlier one.
pub open spec fn is_last_with_id(s: Seq<ActionSchema>, id: Seq<char>, p: int) -> bool {
    &&& 0 <= p < s.len()
    &&& s[p].id_of() == id
    &&& forall|q: int| p < q < s.len() ==> s[q].id_of() != id
}

/// The schema registered under `id`, if any.
pub open spec fn schema_with_id(s: Seq<ActionSchema>, id: Seq<char>) -> Option<ActionSchema> {
    if exists|p: int| is_last_with_id(s, id, p) {
        Some(s[choose|p: int| is_last_with_id(s, id, p)])
    } else {
        None
    }
}

/// The schemas of `s` that can run in `mode`, in order.
pub open spec fn available_schemas(s: Seq<ActionSchema>, mode: Mode) -> Seq<ActionSchema>
    decreases s.len(),
{
    if s.len() == 0 {
        seq![]
    } else if available_in_mode(s.last(), mode) {
        available_schemas(s.drop_last(), mode).push(s.last())
    } else {
        available_schemas(s.drop_last(), mode)
    }
}

/// The identifiers shown as essential in a mode, in display order.
pub open spec fn essential_ids(mode: Mode) -> Seq<Seq<char>> {
    match mode {
        Mode::Normal => seq![
            "append_message"@,
            "edit_message"@,
            "hide_message"@,
            "fork_branch"@,
            "delete_message"@,
            "show_help"@,
        ],
        Mode::Edit => seq!["show_help"@, "exit_mode"@],
    }
}

/// The essential entries of a mode: for each essential identifier in order, the schema
/// registered under it, when there is one and it can run in that mode.
pub open spec fn essential_entries(s: Seq<ActionSchema>, ids: Seq<Seq<char>>, mode: Mode) -> Seq<(Seq<char>, ActionSchema)>
    decreases ids.len(),
{
    if ids.len() == 0 {
        seq![]
    } else {
        let rest = essential_entries(s, ids.drop_last(), mode);
        match schema_with_id(s, ids.last()) {
            Some(schema) => if available_in_mode(schema, mode) {
                rest.push((ids.last(), schema))
            } else {
                rest
            },
            None => rest,
        }
    }
}

/// The schemas of all actions, found by identifier.
pub struct ActionRegistry {
    schemas: Vec<ActionSchema>,
}

impl View for ActionRegistry {
    type V = Seq<ActionSchema>;

    closed spec fn view(&self) -> Seq<ActionSchema> {
        self.schemas@
    }
}

impl ActionRegistry {
    /// A registry holding every schema: common, normal, then edit ones.
    pub fn new() -> (r: ActionRegistry)
        ensures
            r@ == registered_schemas(),
    {
        let mut schemas: Vec<ActionSchema> = Vec::new();
        let common = CommonActionSchema::iter_all();
        let mut i: usize = 0;
        while i < common.len()
            invariant
                i <= common@.len(),
                common@ == CommonActionSchema::all_schemas(),
                schemas@ =~= common@.take(i as int).map_values(|a| ActionSchema::Common(a)),
            decreases common.len() - i,
        {
            schemas.push(ActionSchema::Common(common[i]));
            assert(common@.take(i as int + 1) =~= common@.take(i as int).push(common@[i as int]));
            i = i + 1;
        }
        assert(common@.take(i as int) =~= common@);
        let ghost after_common = schemas@;
        let normal = NormalModeActionSchema::iter_all();
        let mut i: usize = 0;
        while i < normal.len()
            invariant
                i <= normal@.len(),
                normal@ == NormalModeActionSchema::all_schemas(),
                schemas@ =~= after_common + normal@.take(i as int).map_values(|a| ActionSchema::Normal(a)),
            decreases normal.len() - i,
        {
            schemas.push(ActionSchema::Normal(normal[i]));
            assert(normal@.take(i as int + 1) =~= normal@.take(i as int).push(normal@[i as int]));
            i = i + 1;
        }
        assert(normal@.take(i as int) =~= normal@);
        let ghost after_normal = schemas@;
        let edit = EditModeActionSchema::iter_all();
        let mut i: usize = 0;
        while i < edit.len()
            invariant
                i <= edit@.len(),
                edit@ == EditModeActionSchema::all_schemas(),
                schemas@ =~= after_normal + edit@.take(i as int).map_values(|a| ActionSchema::Edit(a)),
            decreases edit.len() - i,
        {
            schemas.push(ActionSchema::Edit(edit[i]));
            assert(edit@.take(i as int + 1) =~= edit@.take(i as int).push(edit@[i as int]));
            i = i + 1;
        }
        assert(edit@.take(i as int) =~= edit@);
        ActionRegistry { schemas }
    }

    /// The schema registered under `id`.
    pub fn get_schema(&self, id: &str) -> (r: Option<&ActionSchema>)
        ensures
            match r {
                Some(s) => schema_with_id(self@, id@) == Some(*s),
                None => schema_with_id(self@, id@) is None,
            },
    {
        let mut i = self.schemas.len();
        while i > 0
            invariant
                i <= self.schemas@.len(),
                forall|q: int| i <= q < self.schemas@.len() ==> self.schemas@[q].id_of() != id@,
            decreases i,
        {
            i = i - 1;
            if str_eq(self.schemas[i].id(), id) {
                proof {
                    assert(is_last_with_id(self@, id@, i as int));
                    let p = choose|p: int| is_last_with_id(self@, id@, p);
                    assert(p == i) by {
                        if p < i {
                            assert(self@[i as int].id_of() == id@);
                        }
                    }
                }
                return Some(&self.schemas[i]);
            }
        }
        None
    }

    /// The schemas that can run in `mode`, each with its identifier, in registration order.
    pub fn get_schemas_for_mode(&self, mode: Mode) -> (r: Vec<(&'static str, &ActionSchema)>)
        ensures
            r@.len() == available_schemas(self@, mode).len(),
            forall|k: int|
                0 <= k < r@.len() ==> *(#[trigger] r@[k]).1 == available_schemas(self@, mode)[k]
                    && r@[k].0@ == available_schemas(self@, mode)[k].id_of(),
    {
        let mut r: Vec<(&'static str, &ActionSchema)> = Vec::new();
        let mut i: usize = 0;
        while i < self.schemas.len()
            invariant
                i <= self.schemas@.len(),
                r@.len() == available_schemas(self@.take(i as int), mode).len(),
                forall|k: int|
                    0 <= k < r@.len() ==> *(#[trigger] r@[k]).1 == available_schemas(self@.take(i as int), mode)[k]
                        && r@[k].0@ == available_schemas(self@.take(i as int), mode)[k].id_of(),
            decreases self.schemas.len() - i,
        {
            let schema = &self.schemas[i];
            proof {
                assert(self@.take(i as int + 1).drop_last() =~= self@.take(i as int));
            }
            if schema_available_in_mode(schema, mode) {
                r.push((schema.id(), schema));
            }
            i = i + 1;
        }
        assert(self@.take(i as int) =~= self@);
        r
    }

    /// The essential schemas of a mode, for the help line: in a fixed order, those that
    /// are registered and can run in that mode.
    pub fn get_essential_schemas_for_mode(&self, mode: Mode) -> (r: Vec<(&'static str, &ActionSchema)>)
        ensures
            r@.len() == essential_entries(self@, essential_ids(mode), mode).len(),
            forall|k: int|
                0 <= k < r@.len() ==> (#[trigger] r@[k]).0@ == essential_entries(self@, essential_ids(mode), mode)[k].0
                    && *r@[k].1 == essential_entries(self@, essential_ids(mode), mode)[k].1,
    {
        let essential_order: Vec<&'static str> = match mode {
            Mode::Normal => vec![
                "append_message",
                "edit_message",
                "hide_message",
                "fork_branch",
                "delete_message",
                "show_help",
            ],
            Mode::Edit => vec!["show_help", "exit_mode"],
        };
        let ghost ids = essential_ids(mode);
        assert(essential_order@.map_values(|s: &str| s@) =~= ids);
        let mut r: Vec<(&'static str, &ActionSchema)> = Vec::new();
        let mut i: usize = 0;
        while i < essential_order.len()
            invariant
                i <= essential_order@.len(),
                essential_order@.map_values(|s: &str| s@) == ids,
                r@.len() == essential_entries(self@, ids.take(i as int), mode).len(),
                forall|k: int|
                    0 <= k < r@.len() ==> (#[trigger] r@[k]).0@ == essential_entries(self@, ids.take(i as int), mode)[k].0
                        && *r@[k].1 == essential_entries(self@, ids.take(i as int), mode)[k].1,
            decreases essential_order.len() - i,
        {
            let action_id = essential_order[i];
            proof {
                assert(ids.take(i as int + 1).drop_last() =~= ids.take(i as int));
                assert(ids[i as int] == action_id@);
            }
            match self.get_schema(action_id) {
                Some(schema) => {
                    if schema_available_in_mode(schema, mode) {
                        r.push((action_id, schema));
                    }
                },
                None => {},
            }
            i = i + 1;
        }
        assert(ids.take(i as int) =~= ids);
        r
    }
}

impl Default for ActionRegistry {
    fn default() -> (r: ActionRegistry)
        ensures
            r@ == registered_schemas(),
    {
        Self::new()
    }
}

/// Something that actions are dispatched to.
pub trait ActionDispatcher {
    fn dispatch(&mut self, action: UIAction) -> crate::reducer::Effect;
}

} // verus!
