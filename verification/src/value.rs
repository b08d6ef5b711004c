use vstd::prelude::*;

verus! {

broadcast use
    vstd::std_specs::vec::axiom_vec_index_decreases,
    vstd::std_specs::vec::axiom_vec_decreases_to_view,
    vstd::seq::axiom_seq_index_decreases;

/// A JSON document: a recursive, dynamically shaped tree. A number is kept as
/// its decimal text, so that the tree itself carries no floating point; an
/// object keeps its members in insertion order as a sequence of pairs.
#[derive(Debug)]
pub enum JsonValue {
    Null,
    Bool(bool),
    /// The decimal text of the number, as it is rendered.
    Num(String),
    Str(String),
    Arr(Vec<JsonValue>),
    Obj(Vec<(String, JsonValue)>),
}

/// The mathematical shape of a JSON document: what a `JsonValue` holds, with
/// every string read as its character sequence. Contracts speak of this model.
pub enum JsonModel {
    Null,
    Bool(bool),
    Num(Seq<char>),
    Str(Seq<char>),
    Arr(Seq<JsonModel>),
    Obj(Seq<(Seq<char>, JsonModel)>),
}

impl JsonValue {
    /// The model of this tree: the same shape over sequences.
    pub open spec fn model(self) -> JsonModel
        decreases self,
    {
        match self {
            JsonValue::Null => JsonModel::Null,
            JsonValue::Bool(b) => JsonModel::Bool(b),
            JsonValue::Num(s) => JsonModel::Num(s@),
            JsonValue::Str(s) => JsonModel::Str(s@),
            JsonValue::Arr(items) => JsonModel::Arr(
                Seq::new(
                    items@.len(),
                    |i: int|
                        if 0 <= i < items@.len() {
                            items@[i].model()
                        } else {
                            JsonModel::Null
                        },
                ),
            ),
            JsonValue::Obj(members) => JsonModel::Obj(
                Seq::new(
                    members@.len(),
                    |i: int|
                        if 0 <= i < members@.len() {
                            (members@[i].0@, members@[i].1.model())
                        } else {
                            (Seq::empty(), JsonModel::Null)
                        },
                ),
            ),
        }
    }
}

impl View for JsonValue {
    type V = JsonModel;

    open spec fn view(&self) -> JsonModel {
        self.model()
    }
}

impl DeepView for JsonValue {
    type V = JsonModel;

    open spec fn deep_view(&self) -> JsonModel {
        self.model()
    }
}

/// The model of an array tree is the array of the element models.
pub proof fn lemma_arr_model(items: Vec<JsonValue>)
    ensures
        JsonValue::Arr(items).model() == JsonModel::Arr(items.deep_view()),
{
    match JsonValue::Arr(items).model() {
        JsonModel::Arr(s) => {
            assert(s =~= items.deep_view());
        },
        _ => {
            assert(false);
        },
    }
}

/// The model of an object tree is the member list of key text and value model.
pub proof fn lemma_obj_model(members: Vec<(String, JsonValue)>)
    ensures
        JsonValue::Obj(members).model() == JsonModel::Obj(members.deep_view()),
{
    match JsonValue::Obj(members).model() {
        JsonModel::Obj(s) => {
            assert(s =~= members.deep_view());
        },
        _ => {
            assert(false);
        },
    }
}

} // verus!
