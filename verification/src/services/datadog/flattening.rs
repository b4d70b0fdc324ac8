//! What flattening means: the points that a usage snapshot stands for.
//!
//! A snapshot is a tree: feature blocks hold breakdowns by language, editor,
//! model or repository, and editors and repositories hold models in turn.
//! Flattening walks that tree in document order. Every entry gives one point
//! for its engaged users and one more for each counter that is present; an
//! absent counter gives no point at all. An entry's points carry the tags of
//! every entry that encloses it.

use vstd::prelude::*;
use crate::models::github::{
    CopilotDotcomChat, CopilotDotcomPullRequests, CopilotIdeChat, CopilotIdeCodeCompletions,
    CopilotMetrics, Editor, Language, Model, Repository,
};
use crate::services::datadog::models::{optional_point, point, standard_tag_texts, PointView};

verus! {

/// `true` or `false`, as written in a tag.
pub open spec fn flag_text(flag: bool) -> Seq<char> {
    if flag {
        "true"@
    } else {
        "false"@
    }
}

/// How many points an optional counter gives: one if present, none if absent.
pub open spec fn present(counter: Option<i64>) -> nat {
    if counter is Some {
        1
    } else {
        0
    }
}

/// The tags of a language entry: the enclosing tags and `language:<name>`.
pub open spec fn language_tags(enclosing: Seq<Seq<char>>, language: Language) -> Seq<Seq<char>> {
    enclosing.push("language:"@ + language.name@)
}

/// The tags of an editor entry: the enclosing tags and `editor:<name>`.
pub open spec fn editor_tags(enclosing: Seq<Seq<char>>, editor: Editor) -> Seq<Seq<char>> {
    enclosing.push("editor:"@ + editor.name@)
}

/// The tags of a repository entry: the enclosing tags and `repository:<name>`.
pub open spec fn repository_tags(enclosing: Seq<Seq<char>>, repository: Repository) -> Seq<
    Seq<char>,
> {
    enclosing.push("repository:"@ + repository.name@)
}

/// The tags of a model entry: the enclosing tags, `model:<name>` and
/// `is_custom_model:<true|false>`.
pub open spec fn model_tags(enclosing: Seq<Seq<char>>, model: Model) -> Seq<Seq<char>> {
    enclosing.push("model:"@ + model.name@).push(
        "is_custom_model:"@ + flag_text(model.is_custom_model),
    )
}

/// The points of one language entry under the metric path `path`.
pub open spec fn language_points(
    language: Language,
    path: Seq<char>,
    timestamp: int,
    enclosing: Seq<Seq<char>>,
) -> Seq<PointView> {
    let tags = language_tags(enclosing, language);
    seq![
        point(
            path + ".total_engaged_users"@,
            language.total_engaged_users as int,
            timestamp,
            tags,
        ),
    ] + optional_point(
        path + ".total_code_suggestions"@,
        language.total_code_suggestions,
        timestamp,
        tags,
    ) + optional_point(
        path + ".total_code_acceptances"@,
        language.total_code_acceptances,
        timestamp,
        tags,
    ) + optional_point(
        path + ".total_code_lines_suggested"@,
        language.total_code_lines_suggested,
        timestamp,
        tags,
    ) + optional_point(
        path + ".total_code_lines_accepted"@,
        language.total_code_lines_accepted,
        timestamp,
        tags,
    )
}

/// The points of a list of language entries, entry after entry.
pub open spec fn languages_points(
    languages: Seq<Language>,
    path: Seq<char>,
    timestamp: int,
    enclosing: Seq<Seq<char>>,
) -> Seq<PointView>
    decreases languages.len(),
{
    if languages.len() == 0 {
        Seq::empty()
    } else {
        languages_points(languages.drop_last(), path, timestamp, enclosing) + language_points(
            languages.last(),
            path,
            timestamp,
            enclosing,
        )
    }
}

/// The points of one model entry under the metric path `path`.
pub open spec fn model_points(
    model: Model,
    path: Seq<char>,
    timestamp: int,
    enclosing: Seq<Seq<char>>,
) -> Seq<PointView> {
    let tags = model_tags(enclosing, model);
    seq![
        point(path + ".total_engaged_users"@, model.total_engaged_users as int, timestamp, tags),
    ] + optional_point(path + ".total_chats"@, model.total_chats, timestamp, tags)
        + optional_point(
        path + ".total_chat_insertion_events"@,
        model.total_chat_insertion_events,
        timestamp,
        tags,
    ) + optional_point(
        path + ".total_chat_copy_events"@,
        model.total_chat_copy_events,
        timestamp,
        tags,
    ) + optional_point(
        path + ".total_pr_summaries_created"@,
        model.total_pr_summaries_created,
        timestamp,
        tags,
    )
}

/// The points of a list of model entries, entry after entry.
pub open spec fn models_points(
    models: Seq<Model>,
    path: Seq<char>,
    timestamp: int,
    enclosing: Seq<Seq<char>>,
) -> Seq<PointView>
    decreases models.len(),
{
    if models.len() == 0 {
        Seq::empty()
    } else {
        models_points(models.drop_last(), path, timestamp, enclosing) + model_points(
            models.last(),
            path,
            timestamp,
            enclosing,
        )
    }
}

/// The points of one editor entry under the metric path `path`: its own
/// point, then the points of its models under `path.models`.
pub open spec fn editor_points(
    editor: Editor,
    path: Seq<char>,
    timestamp: int,
    enclosing: Seq<Seq<char>>,
) -> Seq<PointView> {
    let tags = editor_tags(enclosing, editor);
    seq![
        point(path + ".total_engaged_users"@, editor.total_engaged_users as int, timestamp, tags),
    ] + match editor.models {
        Some(models) => models_points(models@, path + ".models"@, timestamp, tags),
        None => Seq::empty(),
    }
}

/// The points of a list of editor entries, entry after entry.
pub open spec fn editors_points(
    editors: Seq<Editor>,
    path: Seq<char>,
    timestamp: int,
    enclosing: Seq<Seq<char>>,
) -> Seq<PointView>
    decreases editors.len(),
{
    if editors.len() == 0 {
        Seq::empty()
    } else {
        editors_points(editors.drop_last(), path, timestamp, enclosing) + editor_points(
            editors.last(),
            path,
            timestamp,
            enclosing,
        )
    }
}

/// The points of one repository entry under the metric path `path`: its own
/// point, then the points of its models under `path.models`.
pub open spec fn repository_points(
    repository: Repository,
    path: Seq<char>,
    timestamp: int,
    enclosing: Seq<Seq<char>>,
) -> Seq<PointView> {
    let tags = repository_tags(enclosing, repository);
    seq![
        point(
            path + ".total_engaged_users"@,
            repository.total_engaged_users as int,
            timestamp,
            tags,
        ),
    ] + models_points(repository.models@, path + ".models"@, timestamp, tags)
}

/// The points of a list of repository entries, entry after entry.
pub open spec fn repositories_points(
    repositories: Seq<Repository>,
    path: Seq<char>,
    timestamp: int,
    enclosing: Seq<Seq<char>>,
) -> Seq<PointView>
    decreases repositories.len(),
{
    if repositories.len() == 0 {
        Seq::empty()
    } else {
        repositories_points(repositories.drop_last(), path, timestamp, enclosing)
            + repository_points(repositories.last(), path, timestamp, enclosing)
    }
}

/// The three chat counters that the rollup adds up.
#[derive(Clone, Copy, Debug)]
pub enum ChatCounter {
    Chats,
    CopyEvents,
    InsertionEvents,
}

/// The value of a model's chat counter, with an absent counter counting as zero.
pub open spec fn chat_counter(model: Model, which: ChatCounter) -> int {
    let counter = match which {
        ChatCounter::Chats => model.total_chats,
        ChatCounter::CopyEvents => model.total_chat_copy_events,
        ChatCounter::InsertionEvents => model.total_chat_insertion_events,
    };
    match counter {
        Some(v) => v as int,
        None => 0,
    }
}

/// The sum of a chat counter over a list of models.
pub open spec fn models_chat_total(models: Seq<Model>, which: ChatCounter) -> int
    decreases models.len(),
{
    if models.len() == 0 {
        0
    } else {
        models_chat_total(models.drop_last(), which) + chat_counter(models.last(), which)
    }
}

/// The sum of a chat counter over the models of one editor.
pub open spec fn editor_chat_total(editor: Editor, which: ChatCounter) -> int {
    match editor.models {
        Some(models) => models_chat_total(models@, which),
        None => 0,
    }
}

/// The sum of a chat counter over the models of a list of editors.
pub open spec fn editors_chat_total(editors: Seq<Editor>, which: ChatCounter) -> int
    decreases editors.len(),
{
    if editors.len() == 0 {
        0
    } else {
        editors_chat_total(editors.drop_last(), which) + editor_chat_total(editors.last(), which)
    }
}

/// The sum of a chat counter over every model of every editor of the block.
pub open spec fn chat_total(chat: CopilotIdeChat, which: ChatCounter) -> int {
    match chat.editors {
        Some(editors) => editors_chat_total(editors@, which),
        None => 0,
    }
}

/// The aggregate points of the editor chat block under the rollup namespace.
pub open spec fn rollup_points(
    chat: CopilotIdeChat,
    rollup: Seq<char>,
    timestamp: int,
    tags: Seq<Seq<char>>,
) -> Seq<PointView> {
    seq![
        point(
            rollup + ".copilot_ide_chat.total_chats"@,
            chat_total(chat, ChatCounter::Chats),
            timestamp,
            tags,
        ),
        point(
            rollup + ".copilot_ide_chat.total_chat_copy_events"@,
            chat_total(chat, ChatCounter::CopyEvents),
            timestamp,
            tags,
        ),
        point(
            rollup + ".copilot_ide_chat.total_chat_insertion_events"@,
            chat_total(chat, ChatCounter::InsertionEvents),
            timestamp,
            tags,
        ),
    ]
}

/// The points of the code completions block.
pub open spec fn code_completions_points(
    completions: CopilotIdeCodeCompletions,
    namespace: Seq<char>,
    date: Seq<char>,
    timestamp: int,
) -> Seq<PointView> {
    let prefix = namespace + ".ide.code_completions"@;
    let tags = standard_tag_texts(date);
    seq![
        point(
            prefix + ".total_engaged_users"@,
            completions.total_engaged_users as int,
            timestamp,
            tags,
        ),
    ] + match completions.languages {
        Some(languages) => languages_points(languages@, prefix + ".languages"@, timestamp, tags),
        None => Seq::empty(),
    } + match completions.editors {
        Some(editors) => editors_points(editors@, prefix + ".editors"@, timestamp, tags),
        None => Seq::empty(),
    }
}

/// The points of the editor chat block; with a rollup namespace, the
/// aggregate points come last.
pub open spec fn ide_chat_points(
    chat: CopilotIdeChat,
    namespace: Seq<char>,
    date: Seq<char>,
    timestamp: int,
    rollup: Option<Seq<char>>,
) -> Seq<PointView> {
    let prefix = namespace + ".ide.chat"@;
    let tags = standard_tag_texts(date);
    seq![
        point(prefix + ".total_engaged_users"@, chat.total_engaged_users as int, timestamp, tags),
    ] + match chat.editors {
        Some(editors) => editors_points(editors@, prefix + ".editors"@, timestamp, tags),
        None => Seq::empty(),
    } + match rollup {
        Some(rollup_namespace) => rollup_points(chat, rollup_namespace, timestamp, tags),
        None => Seq::empty(),
    }
}

/// The points of the github.com chat block.
pub open spec fn dotcom_chat_points(
    chat: CopilotDotcomChat,
    namespace: Seq<char>,
    date: Seq<char>,
    timestamp: int,
) -> Seq<PointView> {
    let prefix = namespace + ".dotcom.chat"@;
    let tags = standard_tag_texts(date);
    seq![
        point(prefix + ".total_engaged_users"@, chat.total_engaged_users as int, timestamp, tags),
    ] + match chat.models {
        Some(models) => models_points(models@, prefix + ".models"@, timestamp, tags),
        None => Seq::empty(),
    }
}

/// The points of the pull requests block.
pub open spec fn dotcom_pr_points(
    pull_requests: CopilotDotcomPullRequests,
    namespace: Seq<char>,
    date: Seq<char>,
    timestamp: int,
) -> Seq<PointView> {
    let prefix = namespace + ".dotcom.pull_requests"@;
    let tags = standard_tag_texts(date);
    seq![
        point(
            prefix + ".total_engaged_users"@,
            pull_requests.total_engaged_users as int,
            timestamp,
            tags,
        ),
    ] + match pull_requests.repositories {
        Some(repositories) => repositories_points(
            repositories@,
            prefix + ".repositories"@,
            timestamp,
            tags,
        ),
        None => Seq::empty(),
    }
}

/// The value of a top-level user count, with an absent count reported as zero.
pub open spec fn count_or_zero(count: Option<i64>) -> int {
    match count {
        Some(v) => v as int,
        None => 0,
    }
}

/// The two points that every snapshot gives, whatever else it holds.
pub open spec fn core_points(snapshot: CopilotMetrics, namespace: Seq<char>, timestamp: int) -> Seq<
    PointView,
> {
    let tags = standard_tag_texts(snapshot.date@);
    seq![
        point(
            namespace + ".total_active_users"@,
            count_or_zero(snapshot.total_active_users),
            timestamp,
            tags,
        ),
        point(
            namespace + ".total_engaged_users"@,
            count_or_zero(snapshot.total_engaged_users),
            timestamp,
            tags,
        ),
    ]
}

/// The points of the snapshot's code completions block, if it has one.
pub open spec fn completions_part(snapshot: CopilotMetrics, namespace: Seq<char>, timestamp: int)
    -> Seq<PointView> {
    match snapshot.copilot_ide_code_completions {
        Some(completions) => code_completions_points(
            completions,
            namespace,
            snapshot.date@,
            timestamp,
        ),
        None => Seq::empty(),
    }
}

/// The points of the snapshot's editor chat block, if it has one.
pub open spec fn ide_chat_part(
    snapshot: CopilotMetrics,
    namespace: Seq<char>,
    timestamp: int,
    rollup: Option<Seq<char>>,
) -> Seq<PointView> {
    match snapshot.copilot_ide_chat {
        Some(chat) => ide_chat_points(chat, namespace, snapshot.date@, timestamp, rollup),
        None => Seq::empty(),
    }
}

/// The points of the snapshot's github.com chat block, if it has one.
pub open spec fn dotcom_chat_part(snapshot: CopilotMetrics, namespace: Seq<char>, timestamp: int)
    -> Seq<PointView> {
    match snapshot.copilot_dotcom_chat {
        Some(chat) => dotcom_chat_points(chat, namespace, snapshot.date@, timestamp),
        None => Seq::empty(),
    }
}

/// The points of the snapshot's pull requests block, if it has one.
pub open spec fn pull_requests_part(snapshot: CopilotMetrics, namespace: Seq<char>, timestamp: int)
    -> Seq<PointView> {
    match snapshot.copilot_dotcom_pull_requests {
        Some(pull_requests) => dotcom_pr_points(
            pull_requests,
            namespace,
            snapshot.date@,
            timestamp,
        ),
        None => Seq::empty(),
    }
}

/// The points of one snapshot: the two user counts, then each feature block
/// that is present.
pub open spec fn snapshot_points(
    snapshot: CopilotMetrics,
    namespace: Seq<char>,
    timestamp: int,
    rollup: Option<Seq<char>>,
) -> Seq<PointView> {
    core_points(snapshot, namespace, timestamp) + completions_part(snapshot, namespace, timestamp)
        + ide_chat_part(snapshot, namespace, timestamp, rollup) + dotcom_chat_part(
        snapshot,
        namespace,
        timestamp,
    ) + pull_requests_part(snapshot, namespace, timestamp)
}

/// The points of a list of snapshots, snapshot after snapshot.
pub open spec fn all_points(
    snapshots: Seq<CopilotMetrics>,
    namespace: Seq<char>,
    timestamp: int,
    rollup: Option<Seq<char>>,
) -> Seq<PointView>
    decreases snapshots.len(),
{
    if snapshots.len() == 0 {
        Seq::empty()
    } else {
        all_points(snapshots.drop_last(), namespace, timestamp, rollup) + snapshot_points(
            snapshots.last(),
            namespace,
            timestamp,
            rollup,
        )
    }
}

/// A snapshot that carries nothing but its date flattens to exactly two
/// points, `total_active_users` and `total_engaged_users`, both zero and both
/// tagged with that date.
pub proof fn lemma_bare_snapshot_gives_two_zero_points(
    snapshot: CopilotMetrics,
    namespace: Seq<char>,
    timestamp: int,
    rollup: Option<Seq<char>>,
)
    requires
        snapshot.is_bare(),
    ensures
        snapshot_points(snapshot, namespace, timestamp, rollup) == seq![
            point(
                namespace + ".total_active_users"@,
                0,
                timestamp,
                standard_tag_texts(snapshot.date@),
            ),
            point(
                namespace + ".total_engaged_users"@,
                0,
                timestamp,
                standard_tag_texts(snapshot.date@),
            ),
        ],
{
}

/// A language entry gives one point and one more for each of its counters
/// that is present.
pub proof fn lemma_language_point_count(
    language: Language,
    path: Seq<char>,
    timestamp: int,
    enclosing: Seq<Seq<char>>,
)
    ensures
        language_points(language, path, timestamp, enclosing).len() == 1 + present(
            language.total_code_suggestions,
        ) + present(language.total_code_acceptances) + present(
            language.total_code_lines_suggested,
        ) + present(language.total_code_lines_accepted),
{
}

/// Two names under one path are the same only if their endings are.
proof fn lemma_same_path(path: Seq<char>, first: Seq<char>, second: Seq<char>)
    requires
        path + first == path + second,
    ensures
        first == second,
{
    assert((path + first).len() == path.len() + first.len());
    assert((path + second).len() == path.len() + second.len());
    assert(first.len() == second.len());
    assert forall|i: int| 0 <= i < first.len() implies first[i] == second[i] by {
        assert((path + first)[path.len() + i] == first[i]);
        assert((path + second)[path.len() + i] == second[i]);
    }
    assert(first =~= second);
}

/// Whether none of the points has the name `name`.
pub open spec fn unnamed(points: Seq<PointView>, name: Seq<char>) -> bool {
    forall|i: int| 0 <= i < points.len() ==> (#[trigger] points[i]).name != name
}

/// The metric names of a language entry differ from one another.
proof fn lemma_language_names_differ(path: Seq<char>)
    ensures
        path + ".total_engaged_users"@ != path + ".total_code_suggestions"@,
        path + ".total_engaged_users"@ != path + ".total_code_acceptances"@,
        path + ".total_engaged_users"@ != path + ".total_code_lines_suggested"@,
        path + ".total_engaged_users"@ != path + ".total_code_lines_accepted"@,
        path + ".total_code_suggestions"@ != path + ".total_code_acceptances"@,
        path + ".total_code_suggestions"@ != path + ".total_code_lines_suggested"@,
        path + ".total_code_suggestions"@ != path + ".total_code_lines_accepted"@,
        path + ".total_code_acceptances"@ != path + ".total_code_lines_suggested"@,
        path + ".total_code_acceptances"@ != path + ".total_code_lines_accepted"@,
        path + ".total_code_lines_suggested"@ != path + ".total_code_lines_accepted"@,
{
    reveal_strlit(".total_engaged_users");
    reveal_strlit(".total_code_suggestions");
    reveal_strlit(".total_code_acceptances");
    reveal_strlit(".total_code_lines_suggested");
    reveal_strlit(".total_code_lines_accepted");
    let engaged = ".total_engaged_users"@;
    let suggestions = ".total_code_suggestions"@;
    let acceptances = ".total_code_acceptances"@;
    let lines_suggested = ".total_code_lines_suggested"@;
    let lines_accepted = ".total_code_lines_accepted"@;
    assert(suggestions[12] != acceptances[12]);
    if path + engaged == path + suggestions {
        lemma_same_path(path, engaged, suggestions);
    }
    if path + engaged == path + acceptances {
        lemma_same_path(path, engaged, acceptances);
    }
    if path + engaged == path + lines_suggested {
        lemma_same_path(path, engaged, lines_suggested);
    }
    if path + engaged == path + lines_accepted {
        lemma_same_path(path, engaged, lines_accepted);
    }
    if path + suggestions == path + acceptances {
        lemma_same_path(path, suggestions, acceptances);
    }
    if path + suggestions == path + lines_suggested {
        lemma_same_path(path, suggestions, lines_suggested);
    }
    if path + suggestions == path + lines_accepted {
        lemma_same_path(path, suggestions, lines_accepted);
    }
    if path + acceptances == path + lines_suggested {
        lemma_same_path(path, acceptances, lines_suggested);
    }
    if path + acceptances == path + lines_accepted {
        lemma_same_path(path, acceptances, lines_accepted);
    }
    if path + lines_suggested == path + lines_accepted {
        lemma_same_path(path, lines_suggested, lines_accepted);
    }
}

/// The metric names of a model entry differ from one another.
proof fn lemma_model_names_differ(path: Seq<char>)
    ensures
        path + ".total_engaged_users"@ != path + ".total_chats"@,
        path + ".total_engaged_users"@ != path + ".total_chat_insertion_events"@,
        path + ".total_engaged_users"@ != path + ".total_chat_copy_events"@,
        path + ".total_engaged_users"@ != path + ".total_pr_summaries_created"@,
        path + ".total_chats"@ != path + ".total_chat_insertion_events"@,
        path + ".total_chats"@ != path + ".total_chat_copy_events"@,
        path + ".total_chats"@ != path + ".total_pr_summaries_created"@,
        path + ".total_chat_insertion_events"@ != path + ".total_chat_copy_events"@,
        path + ".total_chat_insertion_events"@ != path + ".total_pr_summaries_created"@,
        path + ".total_chat_copy_events"@ != path + ".total_pr_summaries_created"@,
{
    reveal_strlit(".total_engaged_users");
    reveal_strlit(".total_chats");
    reveal_strlit(".total_chat_insertion_events");
    reveal_strlit(".total_chat_copy_events");
    reveal_strlit(".total_pr_summaries_created");
    let engaged = ".total_engaged_users"@;
    let chats = ".total_chats"@;
    let insertions = ".total_chat_insertion_events"@;
    let copies = ".total_chat_copy_events"@;
    let summaries = ".total_pr_summaries_created"@;
    if path + engaged == path + chats {
        lemma_same_path(path, engaged, chats);
    }
    if path + engaged == path + insertions {
        lemma_same_path(path, engaged, insertions);
    }
    if path + engaged == path + copies {
        lemma_same_path(path, engaged, copies);
    }
    if path + engaged == path + summaries {
        lemma_same_path(path, engaged, summaries);
    }
    if path + chats == path + insertions {
        lemma_same_path(path, chats, insertions);
    }
    if path + chats == path + copies {
        lemma_same_path(path, chats, copies);
    }
    if path + chats == path + summaries {
        lemma_same_path(path, chats, summaries);
    }
    if path + insertions == path + copies {
        lemma_same_path(path, insertions, copies);
    }
    if path + insertions == path + summaries {
        lemma_same_path(path, insertions, summaries);
    }
    if path + copies == path + summaries {
        lemma_same_path(path, copies, summaries);
    }
}

/// An absent counter of a language entry is not rendered as zero or as
/// anything else: no point of the entry carries the counter's name.
pub proof fn lemma_absent_language_counter_gives_no_point(
    language: Language,
    path: Seq<char>,
    timestamp: int,
    enclosing: Seq<Seq<char>>,
)
    ensures
        language.total_code_suggestions is None ==> unnamed(
            language_points(language, path, timestamp, enclosing),
            path + ".total_code_suggestions"@,
        ),
        language.total_code_acceptances is None ==> unnamed(
            language_points(language, path, timestamp, enclosing),
            path + ".total_code_acceptances"@,
        ),
        language.total_code_lines_suggested is None ==> unnamed(
            language_points(language, path, timestamp, enclosing),
            path + ".total_code_lines_suggested"@,
        ),
        language.total_code_lines_accepted is None ==> unnamed(
            language_points(language, path, timestamp, enclosing),
            path + ".total_code_lines_accepted"@,
        ),
{
    lemma_language_names_differ(path);
}

/// An absent counter of a model entry is not rendered as zero or as
/// anything else: no point of the entry carries the counter's name.
pub proof fn lemma_absent_model_counter_gives_no_point(
    model: Model,
    path: Seq<char>,
    timestamp: int,
    enclosing: Seq<Seq<char>>,
)
    ensures
        model.total_chats is None ==> unnamed(
            model_points(model, path, timestamp, enclosing),
            path + ".total_chats"@,
        ),
        model.total_chat_insertion_events is None ==> unnamed(
            model_points(model, path, timestamp, enclosing),
            path + ".total_chat_insertion_events"@,
        ),
        model.total_chat_copy_events is None ==> unnamed(
            model_points(model, path, timestamp, enclosing),
            path + ".total_chat_copy_events"@,
        ),
        model.total_pr_summaries_created is None ==> unnamed(
            model_points(model, path, timestamp, enclosing),
            path + ".total_pr_summaries_created"@,
        ),
{
    lemma_model_names_differ(path);
}

/// A model entry gives one point and one more for each of its counters that
/// is present.
pub proof fn lemma_model_point_count(
    model: Model,
    path: Seq<char>,
    timestamp: int,
    enclosing: Seq<Seq<char>>,
)
    ensures
        model_points(model, path, timestamp, enclosing).len() == 1 + present(model.total_chats)
            + present(model.total_chat_insertion_events) + present(model.total_chat_copy_events)
            + present(model.total_pr_summaries_created),
{
}

/// An editor entry has no counters of its own: it gives one point, followed
/// by the points of its models.
pub proof fn lemma_editor_point_count(
    editor: Editor,
    path: Seq<char>,
    timestamp: int,
    enclosing: Seq<Seq<char>>,
)
    ensures
        editor.models is None ==> editor_points(editor, path, timestamp, enclosing).len() == 1,
        editor.models matches Some(models) ==> editor_points(
            editor,
            path,
            timestamp,
            enclosing,
        ).len() == 1 + models_points(
            models@,
            path + ".models"@,
            timestamp,
            editor_tags(enclosing, editor),
        ).len(),
{
}

/// A repository entry has no counters of its own: it gives one point,
/// followed by the points of its models.
pub proof fn lemma_repository_point_count(
    repository: Repository,
    path: Seq<char>,
    timestamp: int,
    enclosing: Seq<Seq<char>>,
)
    ensures
        repository_points(repository, path, timestamp, enclosing).len() == 1 + models_points(
            repository.models@,
            path + ".models"@,
            timestamp,
            repository_tags(enclosing, repository),
        ).len(),
{
}

} // verus!
