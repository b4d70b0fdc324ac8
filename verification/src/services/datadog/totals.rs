//! Adding up the chat counters of an editor chat block.
//!
//! The sums are exact, and a counter may have either sign. A sum is added up
//! in an `i64`, so it can be computed only while nothing on the way leaves
//! that range: the block has totals where the sizes of its counters, taken
//! without their signs, add up to at most `i64::MAX`. Then the sum is in
//! range in whatever order it is added up.

use vstd::prelude::*;
use crate::models::github::{CopilotIdeChat, CopilotMetrics, Editor, Model};
use crate::services::datadog::flattening::{
    chat_counter, chat_total, editor_chat_total, editors_chat_total, models_chat_total,
    ChatCounter,
};

verus! {

/// The size of a number, without its sign.
pub open spec fn magnitude(value: int) -> int {
    if value < 0 {
        -value
    } else {
        value
    }
}

/// The sizes of a chat counter over a list of models, added up.
pub open spec fn models_chat_magnitude(models: Seq<Model>, which: ChatCounter) -> int
    decreases models.len(),
{
    if models.len() == 0 {
        0
    } else {
        models_chat_magnitude(models.drop_last(), which) + magnitude(
            chat_counter(models.last(), which),
        )
    }
}

/// The sizes of a chat counter over the models of one editor, added up.
pub open spec fn editor_chat_magnitude(editor: Editor, which: ChatCounter) -> int {
    match editor.models {
        Some(models) => models_chat_magnitude(models@, which),
        None => 0,
    }
}

/// The sizes of a chat counter over the models of a list of editors, added
/// up.
pub open spec fn editors_chat_magnitude(editors: Seq<Editor>, which: ChatCounter) -> int
    decreases editors.len(),
{
    if editors.len() == 0 {
        0
    } else {
        editors_chat_magnitude(editors.drop_last(), which) + editor_chat_magnitude(
            editors.last(),
            which,
        )
    }
}

/// The sizes of a chat counter over every model of every editor of the
/// block, added up.
pub open spec fn chat_magnitude(chat: CopilotIdeChat, which: ChatCounter) -> int {
    match chat.editors {
        Some(editors) => editors_chat_magnitude(editors@, which),
        None => 0,
    }
}

/// Whether the block's total for the counter can be added up in an `i64`:
/// the sizes of the counter add up to at most `i64::MAX`.
pub open spec fn chat_total_in_range(chat: CopilotIdeChat, which: ChatCounter) -> bool {
    chat_magnitude(chat, which) <= i64::MAX
}

/// Whether all three chat totals of the block can be added up in an `i64`.
pub open spec fn rollup_in_range(chat: CopilotIdeChat) -> bool {
    &&& chat_total_in_range(chat, ChatCounter::Chats)
    &&& chat_total_in_range(chat, ChatCounter::CopyEvents)
    &&& chat_total_in_range(chat, ChatCounter::InsertionEvents)
}

/// Whether the snapshot can be flattened with the rollup enabled: it has no
/// editor chat block, or the three chat totals of that block can be added
/// up.
pub open spec fn snapshot_in_range(snapshot: CopilotMetrics) -> bool {
    snapshot.copilot_ide_chat matches Some(chat) ==> rollup_in_range(chat)
}

/// Whether each of the snapshots can be flattened with the rollup enabled.
pub open spec fn snapshots_in_range(snapshots: Seq<CopilotMetrics>) -> bool {
    forall|i: int| 0 <= i < snapshots.len() ==> snapshot_in_range(#[trigger] snapshots[i])
}

/// The sizes over the first `n` models add up to no more than the sizes
/// over all of them, and the sum over the first `n` models is no larger in
/// size than its sizes added up.
pub proof fn lemma_models_magnitude_grows(models: Seq<Model>, which: ChatCounter, n: int)
    requires
        0 <= n <= models.len(),
    ensures
        0 <= models_chat_magnitude(models.take(n), which) <= models_chat_magnitude(models, which),
        magnitude(models_chat_total(models.take(n), which)) <= models_chat_magnitude(
            models.take(n),
            which,
        ),
    decreases models.len(),
{
    if n == models.len() {
        assert(models.take(n) =~= models);
        if models.len() > 0 {
            lemma_models_magnitude_grows(models.drop_last(), which, n - 1);
            assert(models.drop_last().take(n - 1) =~= models.drop_last());
        }
    } else {
        lemma_models_magnitude_grows(models.drop_last(), which, n);
        assert(models.drop_last().take(n) =~= models.take(n));
    }
}

/// The sizes over the first `n` editors add up to no more than the sizes
/// over all of them, and the sum over the first `n` editors is no larger in
/// size than its sizes added up.
pub proof fn lemma_editors_magnitude_grows(editors: Seq<Editor>, which: ChatCounter, n: int)
    requires
        0 <= n <= editors.len(),
    ensures
        0 <= editors_chat_magnitude(editors.take(n), which) <= editors_chat_magnitude(
            editors,
            which,
        ),
        magnitude(editors_chat_total(editors.take(n), which)) <= editors_chat_magnitude(
            editors.take(n),
            which,
        ),
    decreases editors.len(),
{
    if editors.len() > 0 {
        if let Some(models) = editors.last().models {
            lemma_models_magnitude_grows(models@, which, models@.len() as int);
            assert(models@.take(models@.len() as int) =~= models@);
        }
    }
    if n == editors.len() {
        assert(editors.take(n) =~= editors);
        if editors.len() > 0 {
            lemma_editors_magnitude_grows(editors.drop_last(), which, n - 1);
            assert(editors.drop_last().take(n - 1) =~= editors.drop_last());
        }
    } else {
        lemma_editors_magnitude_grows(editors.drop_last(), which, n);
        assert(editors.drop_last().take(n) =~= editors.take(n));
    }
}

/// The model's counter, with an absent counter counting as zero.
fn counter_of(model: &Model, which: ChatCounter) -> (value: i64)
    ensures
        value == chat_counter(*model, which),
{
    let counter = match which {
        ChatCounter::Chats => model.total_chats,
        ChatCounter::CopyEvents => model.total_chat_copy_events,
        ChatCounter::InsertionEvents => model.total_chat_insertion_events,
    };
    match counter {
        Some(value) => value,
        None => 0,
    }
}

/// The sum of a chat counter over a list of models together with the sizes
/// added up, where the sum can be added up in an `i64`.
fn checked_models_sums(models: &Vec<Model>, which: ChatCounter) -> (sums: Option<(i64, i64)>)
    ensures
        sums is Some <==> models_chat_magnitude(models@, which) <= i64::MAX,
        sums matches Some((total, sizes)) ==> total == models_chat_total(models@, which) && sizes
            == models_chat_magnitude(models@, which),
{
    let mut sum: i64 = 0;
    let mut sizes: i64 = 0;
    let mut i: usize = 0;
    while i < models.len()
        invariant
            i <= models.len(),
            sum == models_chat_total(models@.take(i as int), which),
            sizes == models_chat_magnitude(models@.take(i as int), which),
            -sizes <= sum <= sizes,
        decreases models.len() - i,
    {
        let value = counter_of(&models[i], which);
        proof {
            assert(models@.take(i + 1).drop_last() =~= models@.take(i as int));
            lemma_models_magnitude_grows(models@, which, i + 1);
        }
        if value == i64::MIN {
            return None;
        }
        let size = if value < 0 {
            -value
        } else {
            value
        };
        match sizes.checked_add(size) {
            Some(next) => {
                sizes = next;
            },
            None => {
                return None;
            },
        }
        sum = sum + value;
        i = i + 1;
    }
    assert(models@.take(i as int) =~= models@);
    Some((sum, sizes))
}

/// The sum of a chat counter over a list of models, where it can be added up
/// in an `i64`.
pub fn checked_models_total(models: &Vec<Model>, which: ChatCounter) -> (total: Option<i64>)
    ensures
        total is Some <==> models_chat_magnitude(models@, which) <= i64::MAX,
        total matches Some(t) ==> t == models_chat_total(models@, which),
{
    match checked_models_sums(models, which) {
        Some((total, _)) => Some(total),
        None => None,
    }
}

/// The sum of a chat counter over every model of every editor of the block,
/// where it can be added up in an `i64`.
pub fn checked_chat_total(chat: &CopilotIdeChat, which: ChatCounter) -> (total: Option<i64>)
    ensures
        total is Some <==> chat_total_in_range(*chat, which),
        total matches Some(t) ==> t == chat_total(*chat, which),
{
    let editors = match &chat.editors {
        Some(editors) => editors,
        None => {
            return Some(0);
        },
    };
    let mut sum: i64 = 0;
    let mut sizes: i64 = 0;
    let mut i: usize = 0;
    while i < editors.len()
        invariant
            i <= editors.len(),
            chat.editors == Some(*editors),
            sum == editors_chat_total(editors@.take(i as int), which),
            sizes == editors_chat_magnitude(editors@.take(i as int), which),
            -sizes <= sum <= sizes,
        decreases editors.len() - i,
    {
        proof {
            assert(editors@.take(i + 1).drop_last() =~= editors@.take(i as int));
            lemma_editors_magnitude_grows(editors@, which, i + 1);
            if let Some(models) = editors@[i as int].models {
                lemma_models_magnitude_grows(models@, which, models@.len() as int);
                assert(models@.take(models@.len() as int) =~= models@);
            }
        }
        let of_editor = match &editors[i].models {
            Some(models) => checked_models_sums(models, which),
            None => Some((0, 0)),
        };
        let (editor_total, editor_sizes) = match of_editor {
            Some(sums) => sums,
            None => {
                return None;
            },
        };
        match sizes.checked_add(editor_sizes) {
            Some(next) => {
                sizes = next;
            },
            None => {
                return None;
            },
        }
        sum = sum + editor_total;
        i = i + 1;
    }
    assert(editors@.take(i as int) =~= editors@);
    Some(sum)
}

} // verus!
