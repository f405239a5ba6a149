use vstd::prelude::*;
use vstd::string::*;

use crate::container::Container;
use crate::error::BindingError;
use crate::text::{
    concat_all, concat_upto, ends_with, join_space, join_with_space, push_char, remove_all,
    replace_all, replace_char, str_ends_with, token_views,
};

verus! {

/// The default continuation prefix of WordPiece: `##`.
pub open spec fn default_prefix() -> Seq<char> {
    seq!['#', '#']
}

/// The default word-boundary marker of Metaspace: `▁` (U+2581).
pub const METASPACE_REPLACEMENT: char = '\u{2581}';

/// The default end-of-word suffix of the BPE decoder: `</w>`.
pub open spec fn default_suffix() -> Seq<char> {
    seq!['<', '/', 'w', '>']
}

/// The byte-level decoder: no configuration.
pub struct ByteLevel {}

/// WordPiece: continuation pieces carry `prefix`; `cleanup` removes spacing
/// artifacts before punctuation and in contractions.
pub struct WordPiece {
    pub prefix: String,
    pub cleanup: bool,
}

/// Metaspace: `replacement` marks a space; with `add_prefix_space` the space
/// that encoding put in front of the text is taken off again.
pub struct Metaspace {
    pub replacement: char,
    pub add_prefix_space: bool,
}

/// The BPE decoder: a token ending in `suffix` ends a word.
pub struct BPEDecoder {
    pub suffix: String,
}

/// What a host callable handed back.
pub enum HostValue {
    /// A string.
    Str(String),
    /// A value of another type.
    Other,
    /// The call raised; the host has already reported its diagnostic.
    Raised,
}

/// A host-supplied object offering a `decode` operation. Implementations
/// take exclusive access to the host runtime for the duration of the call.
pub trait HostDecoder {
    /// Whether `v` is an answer the host object may give for `tokens`. A
    /// relation rather than a function: the host need not be deterministic.
    /// By default any answer may come back.
    open spec fn answers(&self, tokens: Seq<Seq<char>>, v: HostValue) -> bool {
        true
    }

    /// Hands `tokens` to the host object and returns its answer.
    fn call_decode(&self, tokens: Vec<String>) -> (v: HostValue)
        ensures
            self.answers(token_views(tokens@), v),
    ;
}

/// A decoder that forwards to a host-supplied object.
pub struct PyDecoder<H> {
    pub class: H,
}

/// The capability a `Decoder` holds.
pub enum DecoderKind<H> {
    ByteLevel(ByteLevel),
    WordPiece(WordPiece),
    Metaspace(Metaspace),
    Bpe(BPEDecoder),
    Custom(PyDecoder<H>),
}

/// The handle through which a decoder is used.
pub struct Decoder<H> {
    pub decoder: Container<DecoderKind<H>>,
}

/// What the ByteLevel decoder of `tokenizers` makes of `tokens`.
pub uninterp spec fn byte_level_decoded(tokens: Seq<Seq<char>>) -> Seq<char>;

/// Relies on `tokenizers::decoders::byte_level::ByteLevel::decode`, whose
/// result depends on the tokens alone and which always returns `Ok`.
#[verifier::external_body]
fn tk_byte_level_decode(tokens: Vec<String>) -> (r: String)
    ensures
        r@ == byte_level_decoded(token_views(tokens@)),
{
    let d = tokenizers::decoders::byte_level::ByteLevel::default();
    tokenizers::Decoder::decode(&d, tokens).unwrap_or_default()
}

/// WordPiece cleanup: spaces before punctuation and inside contractions are
/// taken out by eleven literal replacements, applied in order.
pub open spec fn cleaned(s: Seq<char>) -> Seq<char> {
    let c1 = replace_all(s, seq![' ', '.'], seq!['.']);
    let c2 = replace_all(c1, seq![' ', '?'], seq!['?']);
    let c3 = replace_all(c2, seq![' ', '!'], seq!['!']);
    let c4 = replace_all(c3, seq![' ', ','], seq![',']);
    let c5 = replace_all(c4, seq![' ', '\'', ' '], seq!['\'']);
    let c6 = replace_all(c5, seq![' ', 'n', '\'', 't'], seq!['n', '\'', 't']);
    let c7 = replace_all(c6, seq![' ', '\'', 'm'], seq!['\'', 'm']);
    let c8 = replace_all(c7, seq![' ', 'd', 'o', ' ', 'n', 'o', 't'], seq![' ', 'd', 'o', 'n', '\'', 't']);
    let c9 = replace_all(c8, seq![' ', '\'', 's'], seq!['\'', 's']);
    let c10 = replace_all(c9, seq![' ', '\'', 'v', 'e'], seq!['\'', 'v', 'e']);
    replace_all(c10, seq![' ', '\'', 'r', 'e'], seq!['\'', 'r', 'e'])
}

/// Relies on `tokenizers::decoders::wordpiece::cleanup`: eleven `str::replace`
/// calls with fixed, non-empty patterns, in the order of `cleaned`.
#[verifier::external_body]
fn tk_cleanup(s: &str) -> (r: String)
    ensures
        r@ == cleaned(s@),
{
    tokenizers::decoders::wordpiece::cleanup(s)
}

/// The WordPiece reading of `tokens`: join them with single spaces, remove
/// every space followed by `prefix`, then clean up when `cleanup` is set.
pub open spec fn word_piece_decoded(prefix: Seq<char>, cleanup: bool, tokens: Seq<Seq<char>>) -> Seq<char> {
    let joined = replace_all(join_space(tokens), seq![' '] + prefix, Seq::empty());
    if cleanup {
        cleaned(joined)
    } else {
        joined
    }
}

/// The tokens with every `replacement` turned into a space.
pub open spec fn metaspace_pieces(replacement: char, tokens: Seq<Seq<char>>) -> Seq<Seq<char>> {
    tokens.map_values(|t: Seq<char>| replace_char(t, replacement, ' '))
}

/// The Metaspace reading of `tokens`: every `replacement` becomes a space,
/// the tokens are concatenated, and with `add_prefix_space` one leading
/// space is dropped.
pub open spec fn metaspace_decoded(replacement: char, add_prefix_space: bool, tokens: Seq<Seq<char>>) -> Seq<char> {
    let joined = concat_all(metaspace_pieces(replacement, tokens));
    if add_prefix_space && joined.len() > 0 && joined[0] == ' ' {
        joined.drop_first()
    } else {
        joined
    }
}

/// One token of BPE decoding: a token ending in `suffix` loses it and, unless
/// it is the last, is followed by a space.
pub open spec fn bpe_piece(token: Seq<char>, suffix: Seq<char>, last: bool) -> Seq<char> {
    if ends_with(token, suffix) {
        let word = token.subrange(0, token.len() - suffix.len());
        if last {
            word
        } else {
            word.push(' ')
        }
    } else {
        token
    }
}

/// The tokens of BPE decoding, each with its suffix handled.
pub open spec fn bpe_pieces(suffix: Seq<char>, tokens: Seq<Seq<char>>) -> Seq<Seq<char>> {
    Seq::new(tokens.len(), |i: int| bpe_piece(tokens[i], suffix, i == tokens.len() - 1))
}

/// The BPE reading of `tokens`: the handled tokens, concatenated.
pub open spec fn bpe_decoded(suffix: Seq<char>, tokens: Seq<Seq<char>>) -> Seq<char> {
    concat_all(bpe_pieces(suffix, tokens))
}

/// What a custom decoder returns for what its host callable handed back.
pub open spec fn host_decoded(v: HostValue) -> Result<Seq<char>, BindingError> {
    match v {
        HostValue::Str(s) => Ok(s@),
        HostValue::Other => Err(BindingError::HostCall),
        HostValue::Raised => Err(BindingError::HostCall),
    }
}

/// The view of a decoding result.
pub open spec fn result_view(r: Result<String, BindingError>) -> Result<Seq<char>, BindingError> {
    match r {
        Ok(s) => Ok(s@),
        Err(e) => Err(e),
    }
}

/// Turns what a host callable handed back into the result of a custom
/// decoder: a string is returned unchanged, anything else is a `HostCall`
/// failure.
pub fn decode_host_value(v: HostValue) -> (r: Result<String, BindingError>)
    ensures
        result_view(r) == host_decoded(v),
{
    match v {
        HostValue::Str(s) => Ok(s),
        HostValue::Other => Err(BindingError::HostCall),
        HostValue::Raised => Err(BindingError::HostCall),
    }
}

/// WordPiece decoding of `tokens`.
pub fn word_piece_decode(prefix: &String, cleanup: bool, tokens: &Vec<String>) -> (r: String)
    ensures
        r@ == word_piece_decoded(prefix@, cleanup, token_views(tokens@)),
{
    let joined = join_with_space(tokens);
    let mut pat = String::new();
    push_char(&mut pat, ' ');
    pat.append(prefix.as_str());
    assert(pat@ =~= seq![' '] + prefix@);
    let removed = remove_all(joined.as_str(), pat.as_str());
    if cleanup {
        tk_cleanup(removed.as_str())
    } else {
        removed
    }
}

/// Metaspace decoding of `tokens`. Written here rather than delegated to the
/// Metaspace decoder of `tokenizers`, which drops every marker of the first
/// token instead of a single leading space.
pub fn metaspace_decode(replacement: char, add_prefix_space: bool, tokens: &Vec<String>) -> (r: String)
    ensures
        r@ == metaspace_decoded(replacement, add_prefix_space, token_views(tokens@)),
{
    let ghost pieces = metaspace_pieces(replacement, token_views(tokens@));
    let mut out = String::new();
    let mut i: usize = 0;
    while i < tokens.len()
        invariant
            i <= tokens.len(),
            pieces == metaspace_pieces(replacement, token_views(tokens@)),
            pieces.len() == tokens.len(),
            out@ == concat_upto(pieces, i as int),
        decreases tokens.len() - i,
    {
        let t = tokens[i].as_str();
        let n = t.unicode_len();
        assert(pieces[i as int] == replace_char(t@, replacement, ' '));
        let mut j: usize = 0;
        while j < n
            invariant
                i < tokens.len(),
                j <= n,
                n == t@.len(),
                pieces.len() == tokens.len(),
                pieces[i as int] == replace_char(t@, replacement, ' '),
                out@ == concat_upto(pieces, i as int) + pieces[i as int].subrange(0, j as int),
            decreases n - j,
        {
            let c = t.get_char(j);
            if c == replacement {
                push_char(&mut out, ' ');
            } else {
                push_char(&mut out, c);
            }
            assert(out@ =~= concat_upto(pieces, i as int) + pieces[i as int].subrange(0, j + 1));
            j = j + 1;
        }
        assert(pieces[i as int].subrange(0, n as int) =~= pieces[i as int]);
        i = i + 1;
    }
    let len = out.as_str().unicode_len();
    if add_prefix_space && len > 0 && out.as_str().get_char(0) == ' ' {
        let rest = out.as_str().substring_char(1, len);
        assert(rest@ =~= out@.drop_first());
        String::from_str(rest)
    } else {
        out
    }
}

/// BPE decoding of `tokens` with end-of-word `suffix`. Written here rather
/// than delegated to the BPE decoder of `tokenizers`, which replaces the
/// suffix wherever it occurs in a token and fails on an empty token list.
pub fn bpe_decode(suffix: &String, tokens: &Vec<String>) -> (r: String)
    ensures
        r@ == bpe_decoded(suffix@, token_views(tokens@)),
{
    let ghost pieces = bpe_pieces(suffix@, token_views(tokens@));
    let sfx = suffix.as_str();
    let m = sfx.unicode_len();
    let mut out = String::new();
    let mut i: usize = 0;
    while i < tokens.len()
        invariant
            i <= tokens.len(),
            m == sfx@.len(),
            sfx@ == suffix@,
            pieces == bpe_pieces(suffix@, token_views(tokens@)),
            pieces.len() == tokens.len(),
            out@ == concat_upto(pieces, i as int),
        decreases tokens.len() - i,
    {
        let t = tokens[i].as_str();
        assert(pieces[i as int] == bpe_piece(t@, suffix@, i == tokens.len() - 1));
        if str_ends_with(t, sfx) {
            let word = t.substring_char(0, t.unicode_len() - m);
            out.append(word);
            if i + 1 < tokens.len() {
                push_char(&mut out, ' ');
            }
        } else {
            out.append(t);
        }
        assert(out@ =~= concat_upto(pieces, i + 1));
        i = i + 1;
    }
    out
}

/// The one character that `s` holds, or `CharacterDecode` when `s` holds
/// none or several.
pub fn single_char(s: &str) -> (r: Result<char, BindingError>)
    ensures
        s@.len() == 1 ==> r == Ok::<char, BindingError>(s@[0]),
        s@.len() != 1 ==> r == Err::<char, BindingError>(BindingError::CharacterDecode),
{
    if s.unicode_len() == 1 {
        Ok(s.get_char(0))
    } else {
        Err(BindingError::CharacterDecode)
    }
}

impl ByteLevel {
    /// A byte-level decoder.
    pub fn new<H: HostDecoder>() -> (r: Decoder<H>)
        ensures
            r.decoder is Owned,
            r.decoder->Owned_0 is ByteLevel,
    {
        Decoder { decoder: Container::Owned(DecoderKind::ByteLevel(ByteLevel {})) }
    }
}

impl WordPiece {
    /// A WordPiece decoder; `prefix` defaults to `##` and `cleanup` to true.
    pub fn new<H: HostDecoder>(prefix: Option<String>, cleanup: Option<bool>) -> (r: Decoder<H>)
        ensures
            r.decoder is Owned,
            r.decoder->Owned_0 is WordPiece,
            r.decoder->Owned_0->WordPiece_0.prefix@ == (match prefix {
                Some(p) => p@,
                None => default_prefix(),
            }),
            r.decoder->Owned_0->WordPiece_0.cleanup == (match cleanup {
                Some(c) => c,
                None => true,
            }),
    {
        let prefix = match prefix {
            Some(p) => p,
            None => {
                proof {
                    reveal_strlit("##");
                }
                let p = String::from_str("##");
                assert(p@ =~= default_prefix());
                p
            },
        };
        let cleanup = match cleanup {
            Some(c) => c,
            None => true,
        };
        Decoder { decoder: Container::Owned(DecoderKind::WordPiece(WordPiece { prefix, cleanup })) }
    }
}

impl Metaspace {
    /// A Metaspace decoder; `replacement` defaults to `▁` and must otherwise
    /// be exactly one character; `add_prefix_space` defaults to true.
    pub fn new<H: HostDecoder>(replacement: Option<String>, add_prefix_space: Option<bool>) -> (r:
        Result<Decoder<H>, BindingError>)
        ensures
            r is Err <==> (replacement is Some && replacement->Some_0@.len() != 1),
            r is Err ==> r->Err_0 == BindingError::CharacterDecode,
            r is Ok ==> {
                &&& r->Ok_0.decoder is Owned
                &&& r->Ok_0.decoder->Owned_0 is Metaspace
                &&& r->Ok_0.decoder->Owned_0->Metaspace_0.replacement == (match replacement {
                    Some(s) => s@[0],
                    None => METASPACE_REPLACEMENT,
                })
                &&& r->Ok_0.decoder->Owned_0->Metaspace_0.add_prefix_space == (match add_prefix_space {
                    Some(b) => b,
                    None => true,
                })
            },
    {
        let replacement = match replacement {
            Some(s) => match single_char(s.as_str()) {
                Ok(c) => c,
                Err(e) => {
                    return Err(e);
                },
            },
            None => METASPACE_REPLACEMENT,
        };
        let add_prefix_space = match add_prefix_space {
            Some(b) => b,
            None => true,
        };
        Ok(
            Decoder {
                decoder: Container::Owned(
                    DecoderKind::Metaspace(Metaspace { replacement, add_prefix_space }),
                ),
            },
        )
    }
}

impl BPEDecoder {
    /// A BPE decoder; `suffix` defaults to `</w>`.
    pub fn new<H: HostDecoder>(suffix: Option<String>) -> (r: Decoder<H>)
        ensures
            r.decoder is Owned,
            r.decoder->Owned_0 is Bpe,
            r.decoder->Owned_0->Bpe_0.suffix@ == (match suffix {
                Some(s) => s@,
                None => default_suffix(),
            }),
    {
        let suffix = match suffix {
            Some(s) => s,
            None => {
                proof {
                    reveal_strlit("</w>");
                }
                let s = String::from_str("</w>");
                assert(s@ =~= default_suffix());
                s
            },
        };
        Decoder { decoder: Container::Owned(DecoderKind::Bpe(BPEDecoder { suffix })) }
    }
}

impl<H: HostDecoder> PyDecoder<H> {
    pub fn new(class: H) -> (r: Self)
        ensures
            r.class == class,
    {
        PyDecoder { class }
    }

    /// Hands `tokens` to the host object and reads back its answer.
    pub fn decode(&self, tokens: Vec<String>) -> (r: Result<String, BindingError>)
        ensures
            r is Ok || r == Err::<String, BindingError>(BindingError::HostCall),
            exists|v: HostValue|
                #[trigger] self.class.answers(token_views(tokens@), v) && result_view(r)
                    == host_decoded(v),
    {
        let ghost tv = token_views(tokens@);
        let v = self.class.call_decode(tokens);
        let ghost gv = v;
        let r = decode_host_value(v);
        assert(self.class.answers(tv, gv) && result_view(r) == host_decoded(gv));
        r
    }
}

impl<H: HostDecoder> DecoderKind<H> {
    /// Whether `r` is what this capability returns for `tokens`.
    pub open spec fn decodes_to(self, tokens: Seq<Seq<char>>, r: Result<String, BindingError>) -> bool {
        match self {
            DecoderKind::ByteLevel(_) => r is Ok && r->Ok_0@ == byte_level_decoded(tokens),
            DecoderKind::WordPiece(w) => r is Ok && r->Ok_0@ == word_piece_decoded(w.prefix@, w.cleanup, tokens),
            DecoderKind::Metaspace(m) => r is Ok && r->Ok_0@ == metaspace_decoded(m.replacement, m.add_prefix_space, tokens),
            DecoderKind::Bpe(b) => r is Ok && r->Ok_0@ == bpe_decoded(b.suffix@, tokens),
            DecoderKind::Custom(c) => {
                &&& (r is Ok || r == Err::<String, BindingError>(BindingError::HostCall))
                &&& exists|v: HostValue|
                    #[trigger] c.class.answers(tokens, v) && result_view(r) == host_decoded(v)
            },
        }
    }
}

impl<H: HostDecoder> DecoderKind<H> {
    /// Decodes `tokens` with this capability.
    pub fn decode(&self, tokens: Vec<String>) -> (r: Result<String, BindingError>)
        ensures
            self.decodes_to(token_views(tokens@), r),
    {
        match self {
            DecoderKind::ByteLevel(_) => Ok(tk_byte_level_decode(tokens)),
            DecoderKind::WordPiece(w) => Ok(word_piece_decode(&w.prefix, w.cleanup, &tokens)),
            DecoderKind::Metaspace(m) => Ok(metaspace_decode(m.replacement, m.add_prefix_space, &tokens)),
            DecoderKind::Bpe(b) => Ok(bpe_decode(&b.suffix, &tokens)),
            DecoderKind::Custom(c) => c.decode(tokens),
        }
    }
}

impl<H: HostDecoder> Decoder<H> {
    /// A decoder that forwards to the host object `decoder`.
    pub fn custom(decoder: H) -> (r: Self)
        ensures
            r.decoder is Owned,
            r.decoder->Owned_0 is Custom,
            r.decoder->Owned_0->Custom_0.class == decoder,
    {
        Decoder { decoder: Container::Owned(DecoderKind::Custom(PyDecoder::new(decoder))) }
    }

    /// Decodes `tokens` with the held capability.
    pub fn decode(&self, tokens: Vec<String>) -> (r: Result<String, BindingError>)
        ensures
            self.decoder is Empty ==> r == Err::<String, BindingError>(BindingError::NotInitialized),
            self.decoder is Owned ==> self.decoder->Owned_0.decodes_to(token_views(tokens@), r),
    {
        let ghost tv = token_views(tokens@);
        let run = move |d: &DecoderKind<H>| -> (res: Result<String, BindingError>)
            ensures
                d.decodes_to(tv, res),
        { d.decode(tokens) };
        match self.decoder.execute(run) {
            Ok(res) => res,
            Err(e) => Err(e),
        }
    }
}

} // verus!
