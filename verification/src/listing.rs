//! Reading the table of installed models that the tool prints.

use vstd::prelude::*;
use vstd::string::*;
use crate::process::{CapturedText, CapturedView, InvocationView, Outcome, ProcessInvocation};
use crate::text::{chars_of, join_from, joined_from, rows, split_rows, split_words, words};

verus! {

/// One installed model, as the tool lists it.
#[derive(Debug, Clone, PartialEq, Eq)]
pub struct OllamaModel {
    pub name: String,
    pub id: String,
    pub size: String,
    pub modified: String,
}

/// An [`OllamaModel`] as plain text.
pub struct ModelView {
    pub name: Seq<char>,
    pub id: Seq<char>,
    pub size: Seq<char>,
    pub modified: Seq<char>,
}

impl View for OllamaModel {
    type V = ModelView;

    open spec fn view(&self) -> ModelView {
        ModelView { name: self.name@, id: self.id@, size: self.size@, modified: self.modified@ }
    }
}

impl DeepView for OllamaModel {
    type V = ModelView;

    open spec fn deep_view(&self) -> ModelView {
        self@
    }
}

/// A row without a word.
pub open spec fn is_blank_row(row: Seq<char>) -> bool {
    words(row).len() == 0
}

/// A row that describes a model: it has at least four words.
pub open spec fn is_model_row(row: Seq<char>) -> bool {
    words(row).len() >= 4
}

/// The model that a row describes: the first word is its name, the second its
/// id, the third and fourth together its size, and the rest the time of its last change.
pub open spec fn row_model(row: Seq<char>) -> ModelView {
    let parts = words(row);
    ModelView {
        name: parts[0],
        id: parts[1],
        size: parts[2] + seq![' '] + parts[3],
        modified: joined_from(parts, seq![' '], 4),
    }
}

/// The models that the given rows describe, in the order of the rows. Rows that
/// describe no model are passed over.
pub open spec fn row_models(body: Seq<Seq<char>>) -> Seq<ModelView> {
    body.filter(|row: Seq<char>| is_model_row(row)).map_values(|row: Seq<char>| row_model(row))
}

/// The models that a listing describes. Its first row is the heading.
pub open spec fn listed_models(listing: Seq<char>) -> Seq<ModelView> {
    row_models(rows(listing).skip(1))
}

/// What the listing operation answers for a finished run of the tool.
pub open spec fn list_result(run: CapturedView) -> Result<Seq<ModelView>, Seq<char>> {
    match run.outcome() {
        Outcome::FailedToSpawn => Err("Failed to execute ollama list: "@ + run.spawn_error->0),
        Outcome::FailedNonZeroExit => Err("ollama list failed: "@ + run.stderr),
        Outcome::Succeeded => Ok(listed_models(run.stdout)),
    }
}

/// One more row adds its model where it describes one, and nothing where it does not.
pub proof fn lemma_row_models_push(body: Seq<Seq<char>>, row: Seq<char>)
    ensures
        row_models(body.push(row)) == if is_model_row(row) {
            row_models(body).push(row_model(row))
        } else {
            row_models(body)
        },
{
    let keep = |row: Seq<char>| is_model_row(row);
    body.lemma_filter_push(row, keep);
    if is_model_row(row) {
    }
}

/// A listing is well formed when every row below its heading is blank or
/// describes a model.
pub open spec fn is_well_formed_listing(listing: Seq<char>) -> bool {
    forall|k: int|
        1 <= k < rows(listing).len() ==> is_blank_row(#[trigger] rows(listing)[k]) || is_model_row(
            rows(listing)[k],
        )
}

proof fn lemma_filter_agrees(body: Seq<Seq<char>>, p: spec_fn(Seq<char>) -> bool, q: spec_fn(
    Seq<char>,
) -> bool)
    requires
        forall|k: int| 0 <= k < body.len() ==> p(#[trigger] body[k]) == q(body[k]),
    ensures
        body.filter(p) == body.filter(q),
    decreases body.len(),
{
    reveal(Seq::filter);
    if body.len() > 0 {
        lemma_filter_agrees(body.drop_last(), p, q);
    }
}

/// A well-formed listing yields exactly one model for each row below the heading
/// that is not blank, in the order of the rows, with the fields of that row.
pub proof fn lemma_one_model_per_row(listing: Seq<char>)
    requires
        is_well_formed_listing(listing),
    ensures
        listed_models(listing) == rows(listing).skip(1).filter(
            |row: Seq<char>| !is_blank_row(row),
        ).map_values(|row: Seq<char>| row_model(row)),
{
    let body = rows(listing).skip(1);
    assert forall|k: int| 0 <= k < body.len() implies is_model_row(#[trigger] body[k])
        == !is_blank_row(body[k]) by {
        assert(body[k] == rows(listing)[k + 1]);
    }
    lemma_filter_agrees(
        body,
        |row: Seq<char>| is_model_row(row),
        |row: Seq<char>| !is_blank_row(row),
    );
}

/// A row of fewer than four words yields no model: the rows give the same models
/// with it and without it.
pub proof fn lemma_short_row_dropped(body: Seq<Seq<char>>, k: int)
    requires
        0 <= k < body.len(),
        !is_model_row(body[k]),
    ensures
        row_models(body.remove(k)) == row_models(body),
{
    let keep = |row: Seq<char>| is_model_row(row);
    let head = body.take(k);
    let tail = body.skip(k + 1);
    assert(body =~= head.push(body[k]) + tail);
    head.lemma_filter_push(body[k], keep);
    Seq::filter_distributes_over_add(head.push(body[k]), tail, keep);
    Seq::filter_distributes_over_add(head, tail, keep);
}

/// The process that lists the installed models.
pub fn list_invocation() -> (invocation: ProcessInvocation)
    ensures
        invocation@ == (InvocationView { program: "ollama"@, arguments: seq!["list"@] }),
{
    let mut arguments: Vec<String> = Vec::new();
    arguments.push(String::from_str("list"));
    assert(arguments.deep_view() =~= seq!["list"@]);
    ProcessInvocation { program: String::from_str("ollama"), arguments }
}

/// Reads the models out of a listing: see [`listed_models`].
pub fn parse_listing(listing: &str) -> (models: Vec<OllamaModel>)
    ensures
        models.deep_view() == listed_models(listing@),
{
    let chars = chars_of(listing);
    let table = split_rows(&chars);
    let mut models: Vec<OllamaModel> = Vec::new();
    let mut k: usize = 1;
    proof {
        crate::text::lemma_rows_nonempty(listing@);
        assert(row_models(Seq::<Seq<char>>::empty()) =~= Seq::<ModelView>::empty()) by {
            reveal(Seq::filter);
        }
    }
    while k < table.len()
        invariant
            1 <= k <= table.len(),
            table.deep_view() == rows(listing@),
            models.deep_view() == row_models(table.deep_view().subrange(1, k as int)),
        decreases table.len() - k,
    {
        let parts = split_words(&table[k]);
        let ghost row = table.deep_view()[k as int];
        proof {
            assert(table[k as int].deep_view() =~= table[k as int]@);
            lemma_row_models_push(table.deep_view().subrange(1, k as int), row);
            assert(table.deep_view().subrange(1, k as int).push(row) =~= table.deep_view().subrange(
                1,
                k + 1,
            ));
        }
        if parts.len() >= 4 {
            let size = parts[2].clone().concat(" ").concat(parts[3].as_str());
            let model = OllamaModel {
                name: parts[0].clone(),
                id: parts[1].clone(),
                size,
                modified: join_from(&parts, 4, " "),
            };
            proof {
                reveal_strlit(" ");
                assert(" "@ =~= seq![' ']);
            }
            models.push(model);
        }
        k += 1;
    }
    models
}

/// Answers the listing operation for a finished run of the tool: the models of
/// the listing where the tool succeeded, else the reason why there is no listing.
pub fn list_models(run: &CapturedText) -> (result: Result<Vec<OllamaModel>, String>)
    ensures
        match result {
            Ok(models) => list_result(run@) == Ok::<Seq<ModelView>, Seq<char>>(models.deep_view()),
            Err(message) => list_result(run@) == Err::<Seq<ModelView>, Seq<char>>(message@),
        },
{
    match &run.spawn_error {
        Some(reason) => Err(
            String::from_str("Failed to execute ollama list: ").concat(reason.as_str()),
        ),
        None => match run.outcome() {
            Outcome::Succeeded => Ok(parse_listing(run.stdout.as_str())),
            _ => Err(String::from_str("ollama list failed: ").concat(run.stderr.as_str())),
        },
    }
}

} // verus!
