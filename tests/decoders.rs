use tokenizer_bindings::{
    bpe_decode, decode_host_value, metaspace_decode, single_char, str_ends_with, BPEDecoder,
    BindingError, ByteLevel, Container, Decoder, HostDecoder, HostValue, Metaspace, WordPiece,
    METASPACE_REPLACEMENT,
};

struct NoHost;

impl HostDecoder for NoHost {
    fn call_decode(&self, _tokens: Vec<String>) -> HostValue {
        HostValue::Other
    }
}

struct JoiningHost;

impl HostDecoder for JoiningHost {
    fn call_decode(&self, tokens: Vec<String>) -> HostValue {
        HostValue::Str(tokens.join("|"))
    }
}

struct NumberHost;

impl HostDecoder for NumberHost {
    fn call_decode(&self, _tokens: Vec<String>) -> HostValue {
        HostValue::Other
    }
}

struct RaisingHost;

impl HostDecoder for RaisingHost {
    fn call_decode(&self, _tokens: Vec<String>) -> HostValue {
        HostValue::Raised
    }
}

fn toks(items: &[&str]) -> Vec<String> {
    items.iter().map(|s| s.to_string()).collect()
}

#[test]
fn wordpiece_reattaches_continuation() {
    let d: Decoder<NoHost> = WordPiece::new(Some("##".to_string()), None);
    assert_eq!(d.decode(toks(&["un", "##able"])), Ok("unable".to_string()));
}

#[test]
fn wordpiece_default_prefix() {
    let d: Decoder<NoHost> = WordPiece::new(None, Some(false));
    assert_eq!(d.decode(toks(&["play", "##ing", "now"])), Ok("playing now".to_string()));
}

#[test]
fn wordpiece_custom_prefix() {
    let d: Decoder<NoHost> = WordPiece::new(Some("@@".to_string()), Some(false));
    assert_eq!(d.decode(toks(&["un", "@@able", "##x"])), Ok("unable ##x".to_string()));
}

#[test]
fn wordpiece_cleanup_removes_space_before_period() {
    let d: Decoder<NoHost> = WordPiece::new(None, Some(true));
    let tokens = toks(&["he", "is", "a", "good", "boy", "."]);
    assert_eq!(d.decode(tokens), Ok("he is a good boy.".to_string()));
}

#[test]
fn wordpiece_without_cleanup_keeps_space_before_period() {
    let d: Decoder<NoHost> = WordPiece::new(None, Some(false));
    let tokens = toks(&["he", "is", "a", "good", "boy", "."]);
    assert_eq!(d.decode(tokens), Ok("he is a good boy .".to_string()));
}

#[test]
fn wordpiece_cleanup_contractions() {
    let d: Decoder<NoHost> = WordPiece::new(None, None);
    let tokens = toks(&["i", "do", "n't", "know", "it", "'s", "fine", "?"]);
    assert_eq!(d.decode(tokens), Ok("i don't know it's fine?".to_string()));
}

#[test]
fn wordpiece_removes_prefix_inside_a_token() {
    let d: Decoder<NoHost> = WordPiece::new(Some("##".to_string()), Some(false));
    assert_eq!(d.decode(toks(&["a", "b ##c"])), Ok("a bc".to_string()));
}

#[test]
fn wordpiece_first_token_keeps_prefix() {
    let d: Decoder<NoHost> = WordPiece::new(None, Some(false));
    assert_eq!(d.decode(toks(&["##a", "##b", "c"])), Ok("##ab c".to_string()));
}

#[test]
fn wordpiece_cleanup_spans_tokens() {
    let d: Decoder<NoHost> = WordPiece::new(None, None);
    assert_eq!(d.decode(toks(&["it", "'", "s"])), Ok("it's".to_string()));
    assert_eq!(d.decode(toks(&["i", "do", "not", "go", "!"])), Ok("i don't go!".to_string()));
    assert_eq!(d.decode(toks(&["we", "'re", ",", "you", "'ve"])), Ok("we're, you've".to_string()));
}

#[test]
fn wordpiece_empty_tokens() {
    let d: Decoder<NoHost> = WordPiece::new(None, None);
    assert_eq!(d.decode(vec![]), Ok(String::new()));
}

#[test]
fn metaspace_without_prefix_space_keeps_leading_space() {
    let d: Decoder<NoHost> =
        Metaspace::new(Some("\u{2581}".to_string()), Some(false)).ok().unwrap();
    let tokens = toks(&["\u{2581}Hello", "\u{2581}World"]);
    assert_eq!(d.decode(tokens), Ok(" Hello World".to_string()));
}

#[test]
fn metaspace_with_prefix_space_strips_leading_space() {
    let d: Decoder<NoHost> =
        Metaspace::new(Some("\u{2581}".to_string()), Some(true)).ok().unwrap();
    let tokens = toks(&["\u{2581}Hello", "\u{2581}World"]);
    assert_eq!(d.decode(tokens), Ok("Hello World".to_string()));
}

#[test]
fn metaspace_defaults() {
    let d: Decoder<NoHost> = Metaspace::new(None, None).ok().unwrap();
    let tokens = toks(&["\u{2581}a", "b", "\u{2581}\u{2581}c"]);
    assert_eq!(d.decode(tokens), Ok("ab  c".to_string()));
    assert_eq!(METASPACE_REPLACEMENT, '\u{2581}');
}

#[test]
fn metaspace_strips_only_one_leading_space() {
    let s = metaspace_decode('_', true, &toks(&["__x", "_y"]));
    assert_eq!(s, " x y");
}

#[test]
fn metaspace_prefix_space_absent() {
    let s = metaspace_decode('_', true, &toks(&["x", "_y"]));
    assert_eq!(s, "x y");
    assert_eq!(metaspace_decode('_', true, &vec![]), "");
}

#[test]
fn metaspace_rejects_multi_character_replacement() {
    let r: Result<Decoder<NoHost>, BindingError> = Metaspace::new(Some("ab".to_string()), None);
    assert_eq!(r.err(), Some(BindingError::CharacterDecode));
}

#[test]
fn metaspace_rejects_empty_replacement() {
    let r: Result<Decoder<NoHost>, BindingError> = Metaspace::new(Some(String::new()), None);
    assert_eq!(r.err(), Some(BindingError::CharacterDecode));
}

#[test]
fn single_char_cases() {
    assert_eq!(single_char("\u{2581}"), Ok('\u{2581}'));
    assert_eq!(single_char("xy"), Err(BindingError::CharacterDecode));
    assert_eq!(single_char(""), Err(BindingError::CharacterDecode));
}

#[test]
fn bpe_decoder_spaces_word_ends() {
    let d: Decoder<NoHost> = BPEDecoder::new(Some("</w>".to_string()));
    let tokens = toks(&["un</w>", "ab", "le</w>"]);
    assert_eq!(d.decode(tokens), Ok("un able".to_string()));
}

#[test]
fn bpe_decoder_default_suffix() {
    let d: Decoder<NoHost> = BPEDecoder::new(None);
    let tokens = toks(&["the</w>", "ca", "t</w>", "sat</w>"]);
    assert_eq!(d.decode(tokens), Ok("the cat sat".to_string()));
}

#[test]
fn bpe_decoder_edge_cases() {
    assert_eq!(bpe_decode(&"</w>".to_string(), &vec![]), "");
    assert_eq!(bpe_decode(&"</w>".to_string(), &toks(&["a</w>b", "c"])), "a</w>bc");
    assert_eq!(bpe_decode(&"@".to_string(), &toks(&["x@", "y@"])), "x y");
}

#[test]
fn str_ends_with_cases() {
    assert!(str_ends_with("able</w>", "</w>"));
    assert!(!str_ends_with("</w>able", "</w>"));
    assert!(!str_ends_with("w>", "</w>"));
    assert!(str_ends_with("x", ""));
}

#[test]
fn byte_level_maps_characters_back_to_bytes() {
    let d: Decoder<NoHost> = ByteLevel::new();
    let tokens = toks(&["Hello", "\u{0120}world", "\u{0120}caf\u{00c3}\u{00a9}"]);
    assert_eq!(d.decode(tokens), Ok("Hello world caf\u{e9}".to_string()));
}

#[test]
fn custom_decoder_returns_host_string_unchanged() {
    let d = Decoder::custom(JoiningHost);
    assert_eq!(d.decode(toks(&["a", "b"])), Ok("a|b".to_string()));
}

#[test]
fn custom_decoder_non_string_is_host_call_error() {
    let d = Decoder::custom(NumberHost);
    assert_eq!(d.decode(toks(&["a"])), Err(BindingError::HostCall));
}

#[test]
fn custom_decoder_raise_is_host_call_error() {
    let d = Decoder::custom(RaisingHost);
    assert_eq!(d.decode(toks(&["a"])), Err(BindingError::HostCall));
}

#[test]
fn host_value_interpretation() {
    assert_eq!(decode_host_value(HostValue::Str("x y".to_string())), Ok("x y".to_string()));
    assert_eq!(decode_host_value(HostValue::Other), Err(BindingError::HostCall));
    assert_eq!(decode_host_value(HostValue::Raised), Err(BindingError::HostCall));
}

#[test]
fn empty_decoder_is_not_initialized() {
    let d: Decoder<NoHost> = Decoder { decoder: Container::new() };
    assert_eq!(d.decode(toks(&["a"])), Err(BindingError::NotInitialized));
}

#[test]
fn container_holds_once() {
    let mut c: Container<u32> = Container::new();
    assert!(!c.is_initialized());
    assert_eq!(c.execute(|v| *v + 1), Err(BindingError::NotInitialized));
    c.to_owned(41);
    assert!(c.is_initialized());
    assert_eq!(c.execute(|v| *v + 1), Ok(42));
}
