use vstd::prelude::*;
use vstd::arithmetic::div_mod::lemma_div_denominator;
use vstd::arithmetic::power::{lemma_pow_positive, pow};
use crate::dialogue::{branch_by_id, index_of_message, message_by_id, Dialogue, Message};
use crate::text::{owned, push_char, push_str};

verus! {

/// The lower-case hexadecimal digit of `n`, for `n` below sixteen.
pub open spec fn hex_digit(n: int) -> char {
    if n < 10 {
        (48 + n) as char
    } else {
        (87 + n) as char
    }
}

/// Hexadecimal digits `from` to `to` of a 128-bit value written with 32 digits, most
/// significant first.
pub open spec fn hex_run(id: u128, from: int, to: int) -> Seq<char> {
    Seq::new((to - from) as nat, |k: int| hex_digit((id as int / pow(16, (31 - from - k) as nat)) % 16))
}

/// The hyphenated form of an identifier: 32 lower-case hexadecimal digits grouped
/// 8-4-4-4-12.
pub open spec fn hyphenated(id: u128) -> Seq<char> {
    hex_run(id, 0, 8) + "-"@ + hex_run(id, 8, 12) + "-"@ + hex_run(id, 12, 16) + "-"@ + hex_run(
        id,
        16,
        20,
    ) + "-"@ + hex_run(id, 20, 32)
}

/// The lower-case hexadecimal digit of `d`.
fn hex_char(d: u128) -> (c: char)
    requires
        d < 16,
    ensures
        c == hex_digit(d as int),
{
    let b: u8 = if d < 10 {
        (48 + d) as u8
    } else {
        (87 + d) as u8
    };
    b as char
}

/// The 32 hexadecimal digits of `id`, least significant first.
fn hex_digits_reversed(id: u128) -> (r: Vec<char>)
    ensures
        r@.len() == 32,
        forall|j: int| 0 <= j < 32 ==> #[trigger] r@[j] == hex_digit((id as int / pow(16, j as nat)) % 16),
{
    let mut r: Vec<char> = Vec::new();
    let mut n: u128 = id;
    let mut j: usize = 0;
    proof {
        reveal(pow);
        assert(pow(16, 0) == 1);
    }
    while j < 32
        invariant
            j <= 32,
            r@.len() == j,
            n as int == id as int / pow(16, j as nat),
            forall|k: int| 0 <= k < j ==> #[trigger] r@[k] == hex_digit((id as int / pow(16, k as nat)) % 16),
        decreases 32 - j,
    {
        proof {
            lemma_pow_positive(16, j as nat);
            lemma_div_denominator(id as int, pow(16, j as nat), 16);
            assert(pow(16, (j + 1) as nat) == 16 * pow(16, j as nat)) by {
                reveal(pow);
            }
            assert(pow(16, j as nat) * 16 == 16 * pow(16, j as nat)) by (nonlinear_arith);
        }
        r.push(hex_char(n % 16));
        n = n / 16;
        j = j + 1;
    }
    r
}

/// Appends the digits `from` to `to` of the identifier whose reversed digits are `rev`.
fn push_hex_run(s: &mut String, rev: &Vec<char>, Ghost(id): Ghost<u128>, from: usize, to: usize)
    requires
        from <= to <= 32,
        rev@.len() == 32,
        forall|j: int| 0 <= j < 32 ==> #[trigger] rev@[j] == hex_digit((id as int / pow(16, j as nat)) % 16),
    ensures
        final(s)@ == old(s)@ + hex_run(id, from as int, to as int),
{
    let ghost start = s@;
    let mut k: usize = from;
    while k < to
        invariant
            from <= k <= to <= 32,
            rev@.len() == 32,
            forall|j: int| 0 <= j < 32 ==> #[trigger] rev@[j] == hex_digit((id as int / pow(16, j as nat)) % 16),
            s@ == start + hex_run(id, from as int, k as int),
        decreases to - k,
    {
        push_char(s, rev[31 - k]);
        assert(hex_run(id, from as int, k as int + 1) =~= hex_run(id, from as int, k as int).push(
            rev@[31 - k as int],
        ));
        k = k + 1;
    }
}

/// The identifier as `uuid` displays it: the hyphenated lower-case form of its
/// big-endian bytes, as `uuid::Uuid::from_u128(id).to_string()` writes it.
pub(crate) fn uuid_string(id: u128) -> (r: String)
    ensures
        r@ == hyphenated(id),
{
    let rev = hex_digits_reversed(id);
    let mut s = String::new();
    push_hex_run(&mut s, &rev, Ghost(id), 0, 8);
    push_str(&mut s, "-");
    push_hex_run(&mut s, &rev, Ghost(id), 8, 12);
    push_str(&mut s, "-");
    push_hex_run(&mut s, &rev, Ghost(id), 12, 16);
    push_str(&mut s, "-");
    push_hex_run(&mut s, &rev, Ghost(id), 16, 20);
    push_str(&mut s, "-");
    push_hex_run(&mut s, &rev, Ghost(id), 20, 32);
    assert(s@ =~= hyphenated(id));
    s
}

/// An operation on the dialogue, handed to the dialogue engine that records it for undo.
#[derive(Debug)]
pub enum DialogueCommand {
    EditMessage { message_id: u128, old_content: String, new_content: String },
    AppendMessage { branch_id: u128, message_content: String },
    DeleteMessage {
        message_id: u128,
        branch_id: u128,
        message_index: usize,
        deleted_message: Message,
    },
    ForkBranch { tree_id: u128, branch_id: u128, from_message_id: u128, new_branch_name: String },
    HideMessage { message_id: u128 },
    ShowMessage { message_id: u128 },
    Undo,
    Redo,
}

/// The text of the content of the first message with identifier `id`, or nothing.
pub open spec fn old_content_of(d: Dialogue, id: u128) -> Seq<char> {
    match message_by_id(d.trees@, id) {
        Some(m) => m.content@,
        None => Seq::empty(),
    }
}

/// The command `delete_message` builds, or the reason it refuses.
pub open spec fn delete_outcome(d: Dialogue, message_id: u128, branch_id: u128) -> Result<
    (int, Message),
    Seq<char>,
> {
    match branch_by_id(d.trees@, branch_id) {
        None => Err("Branch with id "@ + hyphenated(branch_id) + " not found"@),
        Some(b) => match index_of_message(b.messages@, message_id) {
            None => Err("Message with id "@ + hyphenated(message_id) + " not found in branch"@),
            Some(i) => Ok((i, b.messages@[i])),
        },
    }
}

/// What a failure of the dialogue engine on `command` is reported as: the operation that
/// failed, then the engine's own words.
pub open spec fn failure_text(command: DialogueCommand, e: Seq<char>) -> Seq<char> {
    match command {
        DialogueCommand::EditMessage { .. } => "Failed to edit message: "@ + e,
        DialogueCommand::AppendMessage { .. } => "Failed to append message: "@ + e,
        DialogueCommand::DeleteMessage { .. } => "Failed to delete message: "@ + e,
        DialogueCommand::ForkBranch { .. } => "Failed to fork branch: "@ + e,
        DialogueCommand::HideMessage { .. } => "Failed to hide message: "@ + e,
        DialogueCommand::ShowMessage { .. } => "Failed to show message: "@ + e,
        DialogueCommand::Undo => "Failed to undo: "@ + e,
        DialogueCommand::Redo => "Failed to redo: "@ + e,
    }
}

/// Builds the dialogue commands of the interface.
pub struct DialogueService;

impl DialogueService {
    /// Replaces a message's content; the old content (empty when no message has the
    /// identifier) goes along for undo.
    pub fn edit_message(dialogue: &Dialogue, message_id: u128, content: String) -> (r:
        DialogueCommand)
        ensures
            r matches DialogueCommand::EditMessage { message_id: id, old_content, new_content }
                && id == message_id && old_content@ == old_content_of(*dialogue, message_id)
                && new_content == content,
    {
        let old_content = match dialogue.get_message_by_id(message_id) {
            Some(m) => m.content.clone(),
            None => String::new(),
        };
        DialogueCommand::EditMessage { message_id, old_content, new_content: content }
    }

    /// Appends a message with the given content to a branch.
    pub fn append_message(branch_id: u128, content: String) -> (r: DialogueCommand)
        ensures
            r == (DialogueCommand::AppendMessage { branch_id, message_content: content }),
    {
        DialogueCommand::AppendMessage { branch_id, message_content: content }
    }

    /// Deletes a message from a branch, keeping its position and a copy for undo; refused
    /// when the branch or the message in it is not found.
    pub fn delete_message(dialogue: &Dialogue, message_id: u128, branch_id: u128) -> (r: Result<
        DialogueCommand,
        String,
    >)
        ensures
            match delete_outcome(*dialogue, message_id, branch_id) {
                Ok((i, m)) => r matches Ok(
                    DialogueCommand::DeleteMessage {
                        message_id: mid,
                        branch_id: bid,
                        message_index,
                        deleted_message,
                    },
                ) && mid == message_id && bid == branch_id && message_index == i
                    && deleted_message == m,
                Err(e) => r matches Err(s) && s@ == e,
            },
    {
        let branch = match dialogue.get_branch_by_id(branch_id) {
            Some(b) => b,
            None => {
                let mut s = owned("Branch with id ");
                push_str(&mut s, uuid_string(branch_id).as_str());
                push_str(&mut s, " not found");
                return Err(s);
            },
        };
        let message_index = match branch.get_message_index_by_id(message_id) {
            Some(i) => i,
            None => {
                let mut s = owned("Message with id ");
                push_str(&mut s, uuid_string(message_id).as_str());
                push_str(&mut s, " not found in branch");
                return Err(s);
            },
        };
        let deleted_message = branch.messages[message_index].clone();
        Ok(DialogueCommand::DeleteMessage { message_id, branch_id, message_index, deleted_message })
    }

    /// Starts a new branch from a message of a branch.
    pub fn fork_branch(
        tree_id: u128,
        source_branch_id: u128,
        from_message_id: u128,
        new_branch_name: String,
    ) -> (r: DialogueCommand)
        ensures
            r == (DialogueCommand::ForkBranch {
                tree_id,
                branch_id: source_branch_id,
                from_message_id,
                new_branch_name,
            }),
    {
        DialogueCommand::ForkBranch {
            tree_id,
            branch_id: source_branch_id,
            from_message_id,
            new_branch_name,
        }
    }

    /// Hides a message.
    pub fn hide_message(message_id: u128) -> (r: DialogueCommand)
        ensures
            r == (DialogueCommand::HideMessage { message_id }),
    {
        DialogueCommand::HideMessage { message_id }
    }

    /// Shows a hidden message again.
    pub fn show_message(message_id: u128) -> (r: DialogueCommand)
        ensures
            r == (DialogueCommand::ShowMessage { message_id }),
    {
        DialogueCommand::ShowMessage { message_id }
    }

    /// Undoes the last recorded operation.
    pub fn undo() -> (r: DialogueCommand)
        ensures
            r == DialogueCommand::Undo,
    {
        DialogueCommand::Undo
    }

    /// Redoes the last undone operation.
    pub fn redo() -> (r: DialogueCommand)
        ensures
            r == DialogueCommand::Redo,
    {
        DialogueCommand::Redo
    }

    /// How a failure of the dialogue engine on `command` is reported.
    pub fn failure(command: &DialogueCommand, e: &str) -> (r: String)
        ensures
            r@ == failure_text(*command, e@),
    {
        let mut s = match command {
            DialogueCommand::EditMessage { .. } => owned("Failed to edit message: "),
            DialogueCommand::AppendMessage { .. } => owned("Failed to append message: "),
            DialogueCommand::DeleteMessage { .. } => owned("Failed to delete message: "),
            DialogueCommand::ForkBranch { .. } => owned("Failed to fork branch: "),
            DialogueCommand::HideMessage { .. } => owned("Failed to hide message: "),
            DialogueCommand::ShowMessage { .. } => owned("Failed to show message: "),
            DialogueCommand::Undo => owned("Failed to undo: "),
            DialogueCommand::Redo => owned("Failed to redo: "),
        };
        push_str(&mut s, e);
        s
    }
}

} // verus!
