use vstd::prelude::*;

use crate::container::Container;
use crate::error::BindingError;

verus! {

/// A constructor argument as the host runtime hands it over.
pub enum HostArg {
    Str(String),
    /// An integral number.
    Number(i64),
    Bool(bool),
    /// An argument that was left out or given as undefined.
    Undefined,
    /// A value of any other type.
    Other,
}

/// `[CLS] A [SEP]`, or `[CLS] A [SEP] B [SEP]` for a pair.
pub struct BertProcessing {
    pub sep: (String, u32),
    pub cls: (String, u32),
}

/// `<s> A </s>`, or `<s> A </s></s> B </s>` for a pair.
pub struct RobertaProcessing {
    pub sep: (String, u32),
    pub cls: (String, u32),
    pub trim_offsets: bool,
    pub add_prefix_space: bool,
}

/// Adds no special tokens; may trim offsets of byte-level tokens.
pub struct ByteLevelProcessing {
    pub trim_offsets: bool,
}

/// The capability a `Processor` holds.
pub enum PostProcessorKind {
    Bert(BertProcessing),
    Roberta(RobertaProcessing),
    ByteLevel(ByteLevelProcessing),
}

/// The handle through which a post-processor is used.
pub struct Processor {
    pub processor: Container<PostProcessorKind>,
}

/// The `(label, id)` pair that a two-element host array describes: a string
/// followed by a number between 0 and `u32::MAX`.
pub open spec fn special_token_of(arr: Seq<HostArg>) -> Option<(Seq<char>, u32)> {
    if arr.len() == 2 && arr[0] is Str && arr[1] is Number && 0 <= arr[1]->Number_0
        <= u32::MAX {
        Some((arr[0]->Str_0@, arr[1]->Number_0 as u32))
    } else {
        None
    }
}

/// The value of an optional boolean argument: `default` when it is absent or
/// undefined, `None` when it is not a boolean.
pub open spec fn flag_of(arg: Option<HostArg>, default: bool) -> Option<bool> {
    match arg {
        None => Some(default),
        Some(HostArg::Undefined) => Some(default),
        Some(HostArg::Bool(b)) => Some(b),
        Some(_) => None,
    }
}

/// Whether `t` holds the pair `v`.
pub open spec fn holds_token(t: (String, u32), v: (Seq<char>, u32)) -> bool {
    t.0@ == v.0 && t.1 == v.1
}

/// Reads a `[label, id]` host array.
pub fn special_token(arr: &Vec<HostArg>) -> (r: Result<(String, u32), BindingError>)
    ensures
        r is Ok <==> special_token_of(arr@) is Some,
        r is Ok ==> holds_token(r->Ok_0, special_token_of(arr@)->Some_0),
        r is Err ==> r->Err_0 == BindingError::ConstructionArgument,
{
    if arr.len() != 2 {
        return Err(BindingError::ConstructionArgument);
    }
    let label = match &arr[0] {
        HostArg::Str(s) => s.clone(),
        _ => {
            return Err(BindingError::ConstructionArgument);
        },
    };
    let id: u32 = match &arr[1] {
        HostArg::Number(n) => {
            if *n < 0 || *n > u32::MAX as i64 {
                return Err(BindingError::ConstructionArgument);
            }
            *n as u32
        },
        _ => {
            return Err(BindingError::ConstructionArgument);
        },
    };
    Ok((label, id))
}

/// Reads an optional boolean argument.
pub fn flag(arg: &Option<HostArg>, default: bool) -> (r: Result<bool, BindingError>)
    ensures
        r is Ok <==> flag_of(*arg, default) is Some,
        r is Ok ==> r->Ok_0 == flag_of(*arg, default)->Some_0,
        r is Err ==> r->Err_0 == BindingError::ConstructionArgument,
{
    match arg {
        None => Ok(default),
        Some(HostArg::Undefined) => Ok(default),
        Some(HostArg::Bool(b)) => Ok(*b),
        Some(_) => Err(BindingError::ConstructionArgument),
    }
}

/// Relies on `tokenizers::processors::bert::BertProcessing::added_tokens`:
/// 3 for a pair, 2 for a single sequence.
#[verifier::external_body]
fn tk_bert_added_tokens(p: &BertProcessing, is_pair: bool) -> (r: usize)
    ensures
        r == (if is_pair { 3usize } else { 2usize }),
{
    let tk_p = tokenizers::processors::bert::BertProcessing::new(p.sep.clone(), p.cls.clone());
    tokenizers::PostProcessor::added_tokens(&tk_p, is_pair)
}

/// Relies on `tokenizers::processors::roberta::RobertaProcessing::added_tokens`:
/// 4 for a pair, 2 for a single sequence.
#[verifier::external_body]
fn tk_roberta_added_tokens(p: &RobertaProcessing, is_pair: bool) -> (r: usize)
    ensures
        r == (if is_pair { 4usize } else { 2usize }),
{
    let tk_p = tokenizers::processors::roberta::RobertaProcessing::new(
        p.sep.clone(),
        p.cls.clone(),
    ).trim_offsets(p.trim_offsets).add_prefix_space(p.add_prefix_space);
    tokenizers::PostProcessor::added_tokens(&tk_p, is_pair)
}

/// Relies on `tokenizers::processors::byte_level::ByteLevel::added_tokens`:
/// always 0.
#[verifier::external_body]
fn tk_byte_level_added_tokens(p: &ByteLevelProcessing, is_pair: bool) -> (r: usize)
    ensures
        r == 0,
{
    let tk_p = tokenizers::processors::byte_level::ByteLevel::default().trim_offsets(
        p.trim_offsets,
    );
    tokenizers::PostProcessor::added_tokens(&tk_p, is_pair)
}

impl BertProcessing {
    /// The number of special tokens added: 2, or 3 for a pair.
    pub fn added_tokens(&self, is_pair: bool) -> (r: usize)
        ensures
            r == (if is_pair { 3usize } else { 2usize }),
    {
        tk_bert_added_tokens(self, is_pair)
    }
}

impl RobertaProcessing {
    /// The number of special tokens added: 2, or 4 for a pair.
    pub fn added_tokens(&self, is_pair: bool) -> (r: usize)
        ensures
            r == (if is_pair { 4usize } else { 2usize }),
    {
        tk_roberta_added_tokens(self, is_pair)
    }
}

impl ByteLevelProcessing {
    /// The number of special tokens added: none.
    pub fn added_tokens(&self, is_pair: bool) -> (r: usize)
        ensures
            r == 0,
    {
        tk_byte_level_added_tokens(self, is_pair)
    }
}

impl PostProcessorKind {
    /// The number of special tokens this capability adds.
    pub open spec fn added_tokens_spec(self, is_pair: bool) -> usize {
        match self {
            PostProcessorKind::Bert(_) => if is_pair { 3 } else { 2 },
            PostProcessorKind::Roberta(_) => if is_pair { 4 } else { 2 },
            PostProcessorKind::ByteLevel(_) => 0,
        }
    }

    pub fn added_tokens(&self, is_pair: bool) -> (r: usize)
        ensures
            r == self.added_tokens_spec(is_pair),
    {
        match self {
            PostProcessorKind::Bert(p) => p.added_tokens(is_pair),
            PostProcessorKind::Roberta(p) => p.added_tokens(is_pair),
            PostProcessorKind::ByteLevel(p) => p.added_tokens(is_pair),
        }
    }
}

impl Processor {
    /// An empty handle, populated by none of the constructors; only for
    /// exercising the uninitialised path.
    pub fn init() -> (r: Processor)
        ensures
            r.processor is Empty,
    {
        Processor { processor: Container::new() }
    }

    /// The number of special tokens the held capability adds.
    pub fn added_tokens(&self, is_pair: bool) -> (r: Result<usize, BindingError>)
        ensures
            self.processor is Empty ==> r == Err::<usize, BindingError>(
                BindingError::NotInitialized,
            ),
            self.processor is Owned ==> r == Ok::<usize, BindingError>(
                self.processor->Owned_0.added_tokens_spec(is_pair),
            ),
    {
        let count = |p: &PostProcessorKind| -> (n: usize)
            ensures
                n == p.added_tokens_spec(is_pair),
            { p.added_tokens(is_pair) };
        self.processor.execute(count)
    }
}

/// A Bert post-processor adds two special tokens to a single sequence and
/// three to a pair, whatever its separator and class tokens.
pub proof fn lemma_bert_special_token_count(p: BertProcessing)
    ensures
        PostProcessorKind::Bert(p).added_tokens_spec(false) == 2,
        PostProcessorKind::Bert(p).added_tokens_spec(true) == 3,
{
}

/// A host array of any length but two describes no special token: it is
/// rejected, never truncated or padded.
pub proof fn lemma_special_token_needs_two_elements(arr: Seq<HostArg>)
    requires
        arr.len() != 2,
    ensures
        special_token_of(arr) is None,
{
}

/// `bert_processing(sep: [label, id], cls: [label, id])`.
pub fn bert_processing(sep: &Vec<HostArg>, cls: &Vec<HostArg>) -> (r: Result<Processor, BindingError>)
    ensures
        r is Ok <==> (special_token_of(sep@) is Some && special_token_of(cls@) is Some),
        r is Err ==> r->Err_0 == BindingError::ConstructionArgument,
        r is Ok ==> {
            &&& r->Ok_0.processor is Owned
            &&& r->Ok_0.processor->Owned_0 is Bert
            &&& holds_token(r->Ok_0.processor->Owned_0->Bert_0.sep, special_token_of(sep@)->Some_0)
            &&& holds_token(r->Ok_0.processor->Owned_0->Bert_0.cls, special_token_of(cls@)->Some_0)
        },
{
    let sep = match special_token(sep) {
        Ok(t) => t,
        Err(e) => {
            return Err(e);
        },
    };
    let cls = match special_token(cls) {
        Ok(t) => t,
        Err(e) => {
            return Err(e);
        },
    };
    let mut processor = Processor::init();
    processor.processor.to_owned(PostProcessorKind::Bert(BertProcessing { sep, cls }));
    Ok(processor)
}

/// `roberta_processing(sep, cls, trimOffsets = true, addPrefixSpace = true)`.
pub fn roberta_processing(
    sep: &Vec<HostArg>,
    cls: &Vec<HostArg>,
    trim_offsets: &Option<HostArg>,
    add_prefix_space: &Option<HostArg>,
) -> (r: Result<Processor, BindingError>)
    ensures
        r is Ok <==> (special_token_of(sep@) is Some && special_token_of(cls@) is Some && flag_of(
            *trim_offsets,
            true,
        ) is Some && flag_of(*add_prefix_space, true) is Some),
        r is Err ==> r->Err_0 == BindingError::ConstructionArgument,
        r is Ok ==> {
            &&& r->Ok_0.processor is Owned
            &&& r->Ok_0.processor->Owned_0 is Roberta
            &&& holds_token(r->Ok_0.processor->Owned_0->Roberta_0.sep, special_token_of(sep@)->Some_0)
            &&& holds_token(r->Ok_0.processor->Owned_0->Roberta_0.cls, special_token_of(cls@)->Some_0)
            &&& r->Ok_0.processor->Owned_0->Roberta_0.trim_offsets == flag_of(*trim_offsets, true)->Some_0
            &&& r->Ok_0.processor->Owned_0->Roberta_0.add_prefix_space == flag_of(*add_prefix_space, true)->Some_0
        },
{
    let sep = match special_token(sep) {
        Ok(t) => t,
        Err(e) => {
            return Err(e);
        },
    };
    let cls = match special_token(cls) {
        Ok(t) => t,
        Err(e) => {
            return Err(e);
        },
    };
    let trim_offsets = match flag(trim_offsets, true) {
        Ok(b) => b,
        Err(e) => {
            return Err(e);
        },
    };
    let add_prefix_space = match flag(add_prefix_space, true) {
        Ok(b) => b,
        Err(e) => {
            return Err(e);
        },
    };
    let mut processor = Processor::init();
    processor.processor.to_owned(
        PostProcessorKind::Roberta(RobertaProcessing { sep, cls, trim_offsets, add_prefix_space }),
    );
    Ok(processor)
}

/// `bytelevel(trimOffsets = true)`.
pub fn bytelevel(trim_offsets: &Option<HostArg>) -> (r: Result<Processor, BindingError>)
    ensures
        r is Ok <==> flag_of(*trim_offsets, true) is Some,
        r is Err ==> r->Err_0 == BindingError::ConstructionArgument,
        r is Ok ==> {
            &&& r->Ok_0.processor is Owned
            &&& r->Ok_0.processor->Owned_0 is ByteLevel
            &&& r->Ok_0.processor->Owned_0->ByteLevel_0.trim_offsets == flag_of(*trim_offsets, true)->Some_0
        },
{
    let trim_offsets = match flag(trim_offsets, true) {
        Ok(b) => b,
        Err(e) => {
            return Err(e);
        },
    };
    let mut processor = Processor::init();
    processor.processor.to_owned(PostProcessorKind::ByteLevel(ByteLevelProcessing { trim_offsets }));
    Ok(processor)
}

} // verus!
