//! Fixed-width text for one task and for a list of tasks.

use vstd::prelude::*;
use vstd::string::*;
use crate::state::{label_of, reveal_labels, tes_state_to_str};
use crate::task::{Task, TaskList};

verus! {

/// Width of the identifier column, in characters.
pub const ID_WIDTH: usize = 25;

/// Width of the state column, in characters.
pub const STATE_WIDTH: usize = 15;

/// `count` spaces.
pub open spec fn spaces(count: nat) -> Seq<char> {
    Seq::new(count, |i: int| ' ')
}

/// The text, followed by as many spaces as it takes to reach the width.
/// A text that is wider than the field stays whole.
pub open spec fn pad_right(text: Seq<char>, width: nat) -> Seq<char> {
    if text.len() >= width {
        text
    } else {
        text + spaces((width - text.len()) as nat)
    }
}

/// One row of the table: two padded fields with a space between them, and a
/// line feed.
pub open spec fn row(first: Seq<char>, second: Seq<char>) -> Seq<char> {
    pad_right(first, ID_WIDTH as nat) + seq![' '] + pad_right(second, STATE_WIDTH as nat)
        + seq!['\n']
}

/// What stands in the identifier column: the identifier, or `None`.
pub open spec fn id_text(id: Option<String>) -> Seq<char> {
    match id {
        Some(text) => text@,
        None => "None"@,
    }
}

/// The row of one task.
pub open spec fn task_line(task: Task) -> Seq<char> {
    row(id_text(task.id), label_of(task.state))
}

/// The row of column titles.
pub open spec fn header_line() -> Seq<char> {
    row("TASK ID"@, "State"@)
}

/// The rows of the tasks, in their order.
pub open spec fn task_lines(tasks: Seq<Task>) -> Seq<char>
    decreases tasks.len(),
{
    if tasks.len() == 0 {
        Seq::empty()
    } else {
        task_lines(tasks.drop_last()) + task_line(tasks.last())
    }
}

/// The whole table: the header, then one row per task.
pub open spec fn table_of(tasks: Seq<Task>) -> Seq<char> {
    header_line() + task_lines(tasks)
}

/// Appends the text to `out`, padded on the right to the width.
fn push_padded(out: &mut String, text: &str, width: usize)
    ensures
        final(out)@ == old(out)@ + pad_right(text@, width as nat),
{
    out.append(text);
    let n: usize = text.unicode_len();
    let mut k: usize = n;
    proof {
        assert(out@ =~= old(out)@ + text@ + spaces(0));
    }
    while k < width
        invariant
            n == text@.len(),
            n <= k,
            k <= width || k == n,
            out@ == old(out)@ + text@ + spaces((k - n) as nat),
        decreases width - k,
    {
        proof {
            reveal_strlit(" ");
            assert(" "@ =~= seq![' ']);
            assert(spaces((k - n) as nat) + seq![' '] =~= spaces((k + 1 - n) as nat));
        }
        out.append(" ");
        k = k + 1;
        proof {
            assert(out@ =~= old(out)@ + text@ + spaces((k - n) as nat));
        }
    }
    proof {
        if n >= width {
            assert(out@ =~= old(out)@ + text@);
        } else {
            assert(out@ =~= old(out)@ + (text@ + spaces((width - n) as nat)));
        }
    }
}

/// Appends one row to `out`.
fn push_row(out: &mut String, first: &str, second: &str)
    ensures
        final(out)@ == old(out)@ + row(first@, second@),
{
    push_padded(out, first, ID_WIDTH);
    out.append(" ");
    push_padded(out, second, STATE_WIDTH);
    out.append("\n");
    proof {
        reveal_strlit(" ");
        reveal_strlit("\n");
        assert(" "@ =~= seq![' ']);
        assert("\n"@ =~= seq!['\n']);
        assert(out@ =~= old(out)@ + row(first@, second@));
    }
}

/// Appends the row of one task to `out`.
fn push_task(out: &mut String, task: &Task)
    ensures
        final(out)@ == old(out)@ + task_line(*task),
{
    let label: &'static str = tes_state_to_str(&task.state);
    match &task.id {
        Some(id) => push_row(out, id.as_str(), label),
        None => push_row(out, "None", label),
    }
}

/// One task as a line of text: the identifier, or `None` where there is
/// none, in a field of 25 characters; a space; the state's label in a field of
/// 15; a line feed. Nothing is cut: a longer identifier widens the line.
pub fn format_task(task: &Task) -> (line: String)
    ensures
        line@ == task_line(*task),
{
    let mut line: String = String::new();
    push_task(&mut line, task);
    proof {
        assert(Seq::<char>::empty() + task_line(*task) =~= task_line(*task));
    }
    line
}

/// A list of tasks as a table: the header row, then the line of each task,
/// in the order of the list.
pub fn format_tasks_response(response: &TaskList) -> (table: String)
    ensures
        table@ == table_of(response.tasks@),
{
    let mut table: String = String::new();
    push_row(&mut table, "TASK ID", "State");
    proof {
        assert(table@ =~= header_line() + task_lines(response.tasks@.take(0)));
    }
    let n: usize = response.tasks.len();
    let mut i: usize = 0;
    while i < n
        invariant
            i <= n,
            n == response.tasks@.len(),
            table@ == header_line() + task_lines(response.tasks@.take(i as int)),
        decreases n - i,
    {
        proof {
            let next = response.tasks@.take(i + 1);
            assert(next.drop_last() =~= response.tasks@.take(i as int));
            assert(next.last() == response.tasks@[i as int]);
        }
        push_task(&mut table, &response.tasks[i]);
        i = i + 1;
        proof {
            assert(table@ =~= header_line() + task_lines(response.tasks@.take(i as int)));
        }
    }
    proof {
        assert(response.tasks@.take(n as int) =~= response.tasks@);
    }
    table
}

/// The width of a padded text: the field's width, or the text's own where
/// that is larger; and the text stands unchanged at its start.
pub proof fn lemma_pad_right(text: Seq<char>, width: nat)
    ensures
        pad_right(text, width).len() == if text.len() >= width { text.len() } else { width },
        pad_right(text, width).subrange(0, text.len() as int) == text,
        forall|i: int| text.len() <= i < pad_right(text, width).len() ==> pad_right(text, width)[i] == ' ',
{
    assert(pad_right(text, width).subrange(0, text.len() as int) =~= text);
}

/// Every line of an identifier of at most 25 characters has the same width,
/// 42 characters with the line feed. A longer identifier is not cut: the line
/// starts with all of it and is as much wider as the identifier is.
pub proof fn lemma_line_width(task: Task)
    ensures
        id_text(task.id).len() <= 25 ==> task_line(task).len() == 42,
        id_text(task.id).len() > 25 ==> task_line(task).len() == id_text(task.id).len() + 17,
        task_line(task).subrange(0, id_text(task.id).len() as int) == id_text(task.id),
        task_line(task).last() == '\n',
{
    let id = id_text(task.id);
    let label = label_of(task.state);
    reveal_labels();
    lemma_pad_right(id, 25);
    lemma_pad_right(label, 15);
    assert(task_line(task).subrange(0, id.len() as int) =~= id);
}

/// The rows of a list and one more task are the rows of the list, then the
/// row of that task: a task's place in the table is its place in the list.
pub proof fn lemma_task_lines_push(tasks: Seq<Task>, task: Task)
    ensures
        task_lines(tasks.push(task)) == task_lines(tasks) + task_line(task),
        table_of(tasks.push(task)) == table_of(tasks) + task_line(task),
{
    assert(tasks.push(task).drop_last() =~= tasks);
    assert(tasks.push(task).last() == task);
    assert(table_of(tasks.push(task)) =~= table_of(tasks) + task_line(task));
}

/// Where no identifier has more than 25 characters, every row is 42
/// characters wide, and so the table of `n` tasks has 42 * (n + 1).
pub proof fn lemma_table_length(tasks: Seq<Task>)
    requires
        forall|i: int| 0 <= i < tasks.len() ==> id_text((#[trigger] tasks[i]).id).len() <= 25,
    ensures
        task_lines(tasks).len() == 42 * tasks.len(),
        table_of(tasks).len() == 42 * (tasks.len() + 1),
    decreases tasks.len(),
{
    lemma_empty_table();
    if tasks.len() > 0 {
        let rest = tasks.drop_last();
        assert forall|i: int| 0 <= i < rest.len() implies id_text((#[trigger] rest[i]).id).len()
            <= 25 by {
            assert(rest[i] == tasks[i]);
        }
        lemma_table_length(rest);
        assert(tasks.last() == tasks[tasks.len() - 1]);
        lemma_line_width(tasks.last());
    }
}

/// The table of no tasks is the header row and nothing else, and the header
/// row is as wide as the line of a task.
pub proof fn lemma_empty_table()
    ensures
        table_of(Seq::<Task>::empty()) == header_line(),
        header_line().len() == 42,
{
    reveal_strlit("TASK ID");
    reveal_strlit("State");
    lemma_pad_right("TASK ID"@, 25);
    lemma_pad_right("State"@, 15);
    assert(table_of(Seq::<Task>::empty()) =~= header_line());
}

} // verus!
