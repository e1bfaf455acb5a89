//! Input modalities and the static description of a model.

use vstd::prelude::*;

verus! {

/// The category of input that a model accepts.
#[derive(Debug, Clone, Copy, PartialEq, Eq, Structural)]
pub enum InputType {
    Text,
    Image,
}

/// The raw input of one embedding request, borrowed for the call.
pub enum Input<'a> {
    Texts(Vec<&'a str>),
}

impl<'a> Input<'a> {
    /// The items of the request, each as its sequence of characters.
    pub open spec fn items(&self) -> Seq<Seq<char>> {
        match self {
            Input::Texts(texts) => Seq::new(texts@.len(), |i: int| texts@[i]@),
        }
    }

    /// The modality of the request.
    pub open spec fn modality(&self) -> InputType {
        match self {
            Input::Texts(_) => InputType::Text,
        }
    }

    /// The number of items in the request.
    pub fn len(&self) -> (n: usize)
        ensures
            n == self.items().len(),
    {
        match self {
            Input::Texts(texts) => texts.len(),
        }
    }

    /// The modality of the request.
    pub fn input_type(&self) -> (t: InputType)
        ensures
            t == self.modality(),
    {
        match self {
            Input::Texts(_) => InputType::Text,
        }
    }
}

/// What a [`ModelInfo`] says, as mathematical values.
pub struct ModelSpec {
    pub id: i32,
    pub name: Seq<char>,
    pub supported_inputs: Seq<InputType>,
}

impl ModelSpec {
    /// Whether the model accepts inputs of the given modality.
    pub open spec fn supports(self, input_type: InputType) -> bool {
        self.supported_inputs.contains(input_type)
    }
}

/// One entry of a backend's catalog: a model's stable numeric id, its name
/// and the input modalities it accepts.
#[derive(Debug, Clone, Copy)]
pub struct ModelInfo {
    pub id: i32,
    pub name: &'static str,
    pub supported_inputs: &'static [InputType],
}

impl View for ModelInfo {
    type V = ModelSpec;

    open spec fn view(&self) -> ModelSpec {
        ModelSpec { id: self.id, name: self.name@, supported_inputs: self.supported_inputs@ }
    }
}

impl ModelInfo {
    /// A model with the given id and name that accepts the given modalities.
    pub fn new(id: i32, name: &'static str, supported_inputs: &'static [InputType]) -> (info: Self)
        ensures
            info@ == (ModelSpec { id, name: name@, supported_inputs: supported_inputs@ }),
    {
        Self { id, name, supported_inputs }
    }

    /// Whether the model accepts inputs of the given modality.
    pub fn supports_input_type(&self, input_type: InputType) -> (supported: bool)
        ensures
            supported == self@.supports(input_type),
    {
        let n: usize = self.supported_inputs.len();
        let mut i: usize = 0;
        while i < n
            invariant
                n == self.supported_inputs@.len(),
                i <= n,
                forall|k: int| 0 <= k < i ==> self.supported_inputs@[k] != input_type,
            decreases n - i,
        {
            if self.supported_inputs[i] == input_type {
                return true;
            }
            i += 1;
        }
        false
    }
}

} // verus!
