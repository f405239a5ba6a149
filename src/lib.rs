//! Post-processing and decoding capabilities at both ends of a tokenizer
//! pipeline, held behind one-shot capability holders.

mod container;
mod decoders;
mod error;
mod processors;
mod text;

pub use container::Container;
pub use decoders::{
    decode_host_value, bpe_decode, metaspace_decode, single_char, BPEDecoder, ByteLevel,
    Decoder, DecoderKind, HostDecoder, HostValue, Metaspace, PyDecoder, WordPiece,
    METASPACE_REPLACEMENT,
};
pub use error::BindingError;
pub use processors::{
    bert_processing, bytelevel, flag, roberta_processing, special_token, BertProcessing,
    ByteLevelProcessing, HostArg, PostProcessorKind, Processor, RobertaProcessing,
};
pub use text::str_ends_with;
