//! The model picker: the steps by which a model, a reasoning effort and a
//! key are chosen, as a function from the state and what the user entered
//! to the next state and the lines to write. The caller owns the terminal,
//! hands in the variables of the environment, and stores the result.

use crate::text::{
    ascii_lowercase, ascii_lowercase_chars, char_is_whitespace, chars_eq, chars_of, decimal_spec,
    eq_ignoring_ascii_case, first_non_ws, is_blank, str_eq, string_of, trim_spec,
};
use crate::llm::provider::opt_text;
use vstd::prelude::*;

verus! {

/// The upper-case form of an ASCII letter; any other character unchanged.
pub open spec fn ascii_upper(c: char) -> char {
    if 'a' <= c && c <= 'z' {
        ((c as u8) - 32) as char
    } else {
        c
    }
}

/// Whether a character is an ASCII letter or digit.
pub open spec fn is_ascii_alphanumeric(c: char) -> bool {
    ('a' <= c && c <= 'z') || ('A' <= c && c <= 'Z') || ('0' <= c && c <= '9')
}

/// Whether an input gives the picker up: `cancel`, `/cancel`, `abort` or
/// `quit`, in any case of letters.
pub open spec fn cancels(input: Seq<char>) -> bool {
    let word = ascii_lowercase(input);
    word == "cancel"@ || word == "/cancel"@ || word == "abort"@ || word == "quit"@
}

/// A provider's name as a label: its first character in upper case, the
/// rest in lower case.
pub open spec fn titled(value: Seq<char>) -> Seq<char> {
    if value.len() == 0 {
        value
    } else {
        seq![ascii_upper(value[0])] + ascii_lowercase(value.subrange(1, value.len() as int))
    }
}

/// The stem of a key under way after the characters of a provider's name
/// from index `i` on: letters and digits in upper case, and one underscore
/// for every run of other characters.
pub open spec fn key_stem_from(provider: Seq<char>, i: int, key: Seq<char>) -> Seq<char>
    decreases provider.len() - i,
{
    if 0 <= i < provider.len() {
        if is_ascii_alphanumeric(provider[i]) {
            key_stem_from(provider, i + 1, key.push(ascii_upper(provider[i])))
        } else if key.len() > 0 && key.last() == '_' {
            key_stem_from(provider, i + 1, key)
        } else {
            key_stem_from(provider, i + 1, key.push('_'))
        }
    } else {
        key
    }
}

/// The name of the environment variable that holds the key of a provider:
/// the stem of its name, `LLM` where that is empty, ending in `_API_KEY`.
pub open spec fn env_key(provider: Seq<char>) -> Seq<char> {
    let stem = key_stem_from(provider, 0, Seq::empty());
    let named = if stem.len() == 0 {
        "LLM"@
    } else {
        stem
    };
    if "_API_KEY"@.is_suffix_of(named) {
        named
    } else if named.last() == '_' {
        named + "API_KEY"@
    } else {
        named + "_API_KEY"@
    }
}

fn is_word(word: &Vec<char>, expected: &str) -> (r: bool)
    ensures
        r == (word@ == expected@),
{
    let e = chars_of(expected);
    chars_eq(word.as_slice(), e.as_slice())
}

/// Whether an input gives the picker up.
pub fn is_cancel_command(input: &str) -> (r: bool)
    ensures
        r == cancels(input@),
{
    let chars = chars_of(input);
    let word = ascii_lowercase_chars(chars.as_slice());
    is_word(&word, "cancel") || is_word(&word, "/cancel") || is_word(&word, "abort") || is_word(
        &word,
        "quit",
    )
}

fn upper_char(c: char) -> (r: char)
    ensures
        r == ascii_upper(c),
{
    if 'a' <= c && c <= 'z' {
        ((c as u8) - 32) as char
    } else {
        c
    }
}

fn check_alphanumeric(c: char) -> (r: bool)
    ensures
        r == is_ascii_alphanumeric(c),
{
    ('a' <= c && c <= 'z') || ('A' <= c && c <= 'Z') || ('0' <= c && c <= '9')
}

/// A provider's name as a label.
pub fn title_case(value: &str) -> (r: String)
    ensures
        r@ == titled(value@),
{
    let chars = chars_of(value);
    if chars.len() == 0 {
        return String::new();
    }
    let mut out: Vec<char> = Vec::new();
    out.push(upper_char(chars[0]));
    let rest = crate::text::slice_chars(chars.as_slice(), 1, chars.len());
    let lowered = ascii_lowercase_chars(rest.as_slice());
    crate::text::extend_chars(&mut out, lowered.as_slice());
    assert(out@ =~= titled(value@));
    string_of(out.as_slice())
}

/// The name of the environment variable that holds the key of a provider.
pub fn derive_env_key(provider: &str) -> (r: String)
    ensures
        r@ == env_key(provider@),
{
    let chars = chars_of(provider);
    let mut key: Vec<char> = Vec::new();
    let mut i: usize = 0;
    while i < chars.len()
        invariant
            i <= chars.len(),
            chars@ == provider@,
            key_stem_from(provider@, i as int, key@) == key_stem_from(
                provider@,
                0,
                Seq::empty(),
            ),
        decreases chars.len() - i,
    {
        let c = chars[i];
        if check_alphanumeric(c) {
            key.push(upper_char(c));
        } else if !(key.len() > 0 && key[key.len() - 1] == '_') {
            key.push('_');
        }
        i += 1;
    }
    if key.len() == 0 {
        key = chars_of("LLM");
    }
    proof {
        reveal_strlit("LLM");
        assert("LLM"@.len() == 3);
    }
    let suffix = chars_of("_API_KEY");
    if !crate::text::ends_with(key.as_slice(), suffix.as_slice()) {
        if key[key.len() - 1] != '_' {
            key.push('_');
        }
        let tail = chars_of("API_KEY");
        let ghost before = key@;
        crate::text::extend_chars(&mut key, tail.as_slice());
        proof {
            reveal_strlit("_API_KEY");
            reveal_strlit("API_KEY");
            reveal_strlit("LLM");
            assert("_API_KEY"@ =~= seq!['_'] + "API_KEY"@);
            assert(key@ =~= before + "API_KEY"@);
        }
    }
    string_of(key.as_slice())
}

/// How hard a model is asked to think.
#[derive(Clone, Copy, Debug, PartialEq, Eq, Structural)]
pub enum ReasoningEffortLevel {
    Low,
    Medium,
    High,
}

/// The name of a level, as it is written out.
pub open spec fn level_name(level: ReasoningEffortLevel) -> Seq<char> {
    match level {
        ReasoningEffortLevel::Low => "low"@,
        ReasoningEffortLevel::Medium => "medium"@,
        ReasoningEffortLevel::High => "high"@,
    }
}

/// The label of a level in a list.
pub open spec fn level_label(level: ReasoningEffortLevel) -> Seq<char> {
    match level {
        ReasoningEffortLevel::Low => "Easy"@,
        ReasoningEffortLevel::Medium => "Medium"@,
        ReasoningEffortLevel::High => "Hard"@,
    }
}

impl ReasoningEffortLevel {
    /// The name of the level, as it is written out.
    pub fn as_str(&self) -> (r: &'static str)
        ensures
            r@ == level_name(*self),
    {
        match self {
            ReasoningEffortLevel::Low => "low",
            ReasoningEffortLevel::Medium => "medium",
            ReasoningEffortLevel::High => "high",
        }
    }
}

/// The label of a level in a list.
pub fn reasoning_level_label(level: ReasoningEffortLevel) -> (r: &'static str)
    ensures
        r@ == level_label(level),
{
    match level {
        ReasoningEffortLevel::Low => "Easy",
        ReasoningEffortLevel::Medium => "Medium",
        ReasoningEffortLevel::High => "Hard",
    }
}

/// What a level means, in a list.
pub fn reasoning_level_description(level: ReasoningEffortLevel) -> (r: &'static str)
    ensures
        r@ == match level {
            ReasoningEffortLevel::Low => "Fast responses with lightweight reasoning."@,
            ReasoningEffortLevel::Medium => "Balanced depth and speed for general tasks."@,
            ReasoningEffortLevel::High => "Maximum reasoning depth for complex problems."@,
        },
{
    match level {
        ReasoningEffortLevel::Low => "Fast responses with lightweight reasoning.",
        ReasoningEffortLevel::Medium => "Balanced depth and speed for general tasks.",
        ReasoningEffortLevel::High => "Maximum reasoning depth for complex problems.",
    }
}

/// Model of a [`ModelOption`].
pub struct ModelOptionV {
    pub index: usize,
    pub provider_key: Seq<char>,
    pub provider_label: Seq<char>,
    pub env_key: Seq<char>,
    pub id: Seq<char>,
    pub display: Seq<char>,
    pub description: Seq<char>,
    pub supports_reasoning: bool,
}

/// A model that the picker offers: its number in the list, its provider
/// by key, label and the environment variable of its key, and the model
/// itself.
#[derive(Debug)]
pub struct ModelOption {
    pub index: usize,
    pub provider_key: String,
    pub provider_label: String,
    pub env_key: String,
    pub id: String,
    pub display: String,
    pub description: String,
    pub supports_reasoning: bool,
}

impl View for ModelOption {
    type V = ModelOptionV;

    open spec fn view(&self) -> ModelOptionV {
        ModelOptionV {
            index: self.index,
            provider_key: self.provider_key@,
            provider_label: self.provider_label@,
            env_key: self.env_key@,
            id: self.id@,
            display: self.display@,
            description: self.description@,
            supports_reasoning: self.supports_reasoning,
        }
    }
}

/// The models of a list of options.
pub open spec fn option_views(options: Seq<ModelOption>) -> Seq<ModelOptionV> {
    Seq::new(options.len(), |i: int| options[i]@)
}

/// The variables of the environment, as names and values.
pub open spec fn env_views(env: Seq<(String, String)>) -> Seq<(Seq<char>, Seq<char>)> {
    Seq::new(env.len(), |i: int| (env[i].0@, env[i].1@))
}

/// The value of the first variable from index `i` on that has the name.
pub open spec fn env_value_from(env: Seq<(Seq<char>, Seq<char>)>, name: Seq<char>, i: int)
    -> Option<Seq<char>>
    decreases env.len() - i,
{
    if 0 <= i < env.len() {
        if env[i].0 == name {
            Some(env[i].1)
        } else {
            env_value_from(env, name, i + 1)
        }
    } else {
        None
    }
}

/// Whether a key has to be asked for: the variable that would hold it is
/// not set or blank.
pub open spec fn needs_key(env: Seq<(Seq<char>, Seq<char>)>, name: Seq<char>) -> bool {
    match env_value_from(env, name, 0) {
        Some(value) => is_blank(value),
        None => true,
    }
}

fn check_needs_key(env: &[(String, String)], name: &str) -> (r: bool)
    ensures
        r == needs_key(env_views(env@), name@),
{
    let ghost views = env_views(env@);
    let mut i: usize = 0;
    while i < env.len()
        invariant
            i <= env.len(),
            views == env_views(env@),
            env_value_from(views, name@, i as int) == env_value_from(views, name@, 0),
        decreases env.len() - i,
    {
        if str_eq(env[i].0.as_str(), name) {
            return crate::text::str_is_blank(env[i].1.as_str());
        }
        i += 1;
    }
    true
}

/// Model of a [`SelectionDetail`].
pub struct SelectionDetailV {
    pub provider_key: Seq<char>,
    pub provider_label: Seq<char>,
    pub known_provider: bool,
    pub model_id: Seq<char>,
    pub model_display: Seq<char>,
    pub known_model: bool,
    pub reasoning_supported: bool,
    pub reasoning_optional: bool,
    pub requires_api_key: bool,
    pub env_key: Seq<char>,
}

/// The model that was picked, and what is left to ask about it.
#[derive(Debug)]
pub struct SelectionDetail {
    pub provider_key: String,
    pub provider_label: String,
    pub known_provider: bool,
    pub model_id: String,
    pub model_display: String,
    pub known_model: bool,
    pub reasoning_supported: bool,
    pub reasoning_optional: bool,
    pub requires_api_key: bool,
    pub env_key: String,
}

impl View for SelectionDetail {
    type V = SelectionDetailV;

    open spec fn view(&self) -> SelectionDetailV {
        SelectionDetailV {
            provider_key: self.provider_key@,
            provider_label: self.provider_label@,
            known_provider: self.known_provider,
            model_id: self.model_id@,
            model_display: self.model_display@,
            known_model: self.known_model,
            reasoning_supported: self.reasoning_supported,
            reasoning_optional: self.reasoning_optional,
            requires_api_key: self.requires_api_key,
            env_key: self.env_key@,
        }
    }
}

impl SelectionDetail {
    /// A copy of this selection.
    pub fn duplicate(&self) -> (r: SelectionDetail)
        ensures
            r@ == self@,
    {
        SelectionDetail {
            provider_key: self.provider_key.clone(),
            provider_label: self.provider_label.clone(),
            known_provider: self.known_provider,
            model_id: self.model_id.clone(),
            model_display: self.model_display.clone(),
            known_model: self.known_model,
            reasoning_supported: self.reasoning_supported,
            reasoning_optional: self.reasoning_optional,
            requires_api_key: self.requires_api_key,
            env_key: self.env_key.clone(),
        }
    }
}

/// The selection that an option of the list stands for.
pub open spec fn option_selection(option: ModelOptionV, env: Seq<(Seq<char>, Seq<char>)>)
    -> SelectionDetailV {
    SelectionDetailV {
        provider_key: option.provider_key,
        provider_label: option.provider_label,
        known_provider: true,
        model_id: option.id,
        model_display: option.display,
        known_model: true,
        reasoning_supported: option.supports_reasoning,
        reasoning_optional: false,
        requires_api_key: needs_key(env, option.env_key),
        env_key: option.env_key,
    }
}

/// The selection that an option of the list stands for.
pub fn selection_from_option(option: &ModelOption, env: &[(String, String)]) -> (r:
    SelectionDetail)
    ensures
        r@ == option_selection(option@, env_views(env@)),
{
    SelectionDetail {
        provider_key: option.provider_key.clone(),
        provider_label: option.provider_label.clone(),
        known_provider: true,
        model_id: option.id.clone(),
        model_display: option.display.clone(),
        known_model: true,
        reasoning_supported: option.supports_reasoning,
        reasoning_optional: false,
        requires_api_key: check_needs_key(env, option.env_key.as_str()),
        env_key: option.env_key.clone(),
    }
}

/// The place of the first option from `i` on that has the number.
pub open spec fn numbered_from(options: Seq<ModelOptionV>, number: usize, i: int) -> Option<int>
    decreases options.len() - i,
{
    if 0 <= i < options.len() {
        if options[i].index == number {
            Some(i)
        } else {
            numbered_from(options, number, i + 1)
        }
    } else {
        None
    }
}

fn find_numbered(options: &[ModelOption], number: usize) -> (r: Option<usize>)
    ensures
        match r {
            Some(i) => numbered_from(option_views(options@), number, 0) == Some(i as int) && i
                < options.len(),
            None => numbered_from(option_views(options@), number, 0) is None,
        },
{
    let ghost views = option_views(options@);
    let mut i: usize = 0;
    while i < options.len()
        invariant
            i <= options.len(),
            views == option_views(options@),
            numbered_from(views, number, i as int) == numbered_from(views, number, 0),
        decreases options.len() - i,
    {
        if options[i].index == number {
            return Some(i);
        }
        i += 1;
    }
    None
}

/// The place of the first option from `i` on of the provider with the
/// key and, where `model` is given, with that model but for the case of
/// ASCII letters.
pub open spec fn offered_from(
    options: Seq<ModelOptionV>,
    provider_key: Seq<char>,
    model: Option<Seq<char>>,
    i: int,
) -> Option<int>
    decreases options.len() - i,
{
    if 0 <= i < options.len() {
        if options[i].provider_key == provider_key && (model is None || eq_ignoring_ascii_case(
            options[i].id,
            model->0,
        )) {
            Some(i)
        } else {
            offered_from(options, provider_key, model, i + 1)
        }
    } else {
        None
    }
}

fn find_offered(options: &[ModelOption], provider_key: &str, model: Option<&str>) -> (r: Option<
    usize,
>)
    ensures
        match r {
            Some(i) => offered_from(
                option_views(options@),
                provider_key@,
                match model {
                    Some(m) => Some(m@),
                    None => None,
                },
                0,
            ) == Some(i as int) && i < options.len(),
            None => offered_from(
                option_views(options@),
                provider_key@,
                match model {
                    Some(m) => Some(m@),
                    None => None,
                },
                0,
            ) is None,
        },
{
    let ghost views = option_views(options@);
    let ghost wanted: Option<Seq<char>> = match model {
        Some(m) => Some(m@),
        None => None,
    };
    let mut i: usize = 0;
    while i < options.len()
        invariant
            i <= options.len(),
            views == option_views(options@),
            wanted == match model {
                Some(m) => Some(m@),
                None => None,
            },
            offered_from(views, provider_key@, wanted, i as int) == offered_from(
                views,
                provider_key@,
                wanted,
                0,
            ),
        decreases options.len() - i,
    {
        let same_model = match model {
            Some(m) => crate::text::str_eq_ignore_ascii_case(options[i].id.as_str(), m),
            None => true,
        };
        if same_model && str_eq(options[i].provider_key.as_str(), provider_key) {
            return Some(i);
        }
        i += 1;
    }
    None
}

/// The number that the digits of a text from index `i` on stand for
/// after `acc`; none where a character is no digit or the number is too
/// large.
pub open spec fn digits_value(text: Seq<char>, i: int, acc: int) -> Option<int>
    decreases text.len() - i,
{
    if 0 <= i < text.len() {
        if '0' <= text[i] && text[i] <= '9' {
            let next = acc * 10 + (text[i] as int - '0' as int);
            if next > usize::MAX {
                None
            } else {
                digits_value(text, i + 1, next)
            }
        } else {
            None
        }
    } else {
        Some(acc)
    }
}

/// The number that a text stands for: decimal digits, after a plus sign
/// or none, that fit the machine's word.
pub open spec fn parsed_number(text: Seq<char>) -> Option<usize> {
    let start: int = if text.len() > 0 && text[0] == '+' {
        1
    } else {
        0
    };
    if text.len() <= start {
        None
    } else {
        match digits_value(text, start, 0) {
            Some(v) => Some(v as usize),
            None => None,
        }
    }
}

/// Reads a text as a number.
pub fn parse_number(text: &[char]) -> (r: Option<usize>)
    ensures
        r == parsed_number(text@),
{
    let start: usize = if text.len() > 0 && text[0] == '+' {
        1
    } else {
        0
    };
    if text.len() <= start {
        return None;
    }
    let mut acc: usize = 0;
    let mut i: usize = start;
    while i < text.len()
        invariant
            start <= i <= text.len(),
            start < text.len(),
            start as int == if text@.len() > 0 && text@[0] == '+' {
                1int
            } else {
                0int
            },
            digits_value(text@, i as int, acc as int) == digits_value(text@, start as int, 0),
        decreases text.len() - i,
    {
        let c = text[i];
        if !('0' <= c && c <= '9') {
            return None;
        }
        let digit: u128 = (c as u32 - '0' as u32) as u128;
        let next: u128 = acc as u128 * 10 + digit;
        if next > usize::MAX as u128 {
            return None;
        }
        acc = next as usize;
        i += 1;
    }
    Some(acc)
}

/// The index at or after `i` of the first whitespace character of a
/// text, or its length.
pub open spec fn token_end(text: Seq<char>, i: int) -> int
    decreases text.len() - i,
{
    if 0 <= i < text.len() && !char_is_whitespace(text[i]) {
        token_end(text, i + 1)
    } else {
        i
    }
}

/// What a typed selection stands for: the option of a number; or a
/// provider and a model, which is the option that offers them where there
/// is one, else a selection entered by hand; or the complaint.
pub open spec fn parsed_selection(
    options: Seq<ModelOptionV>,
    input: Seq<char>,
    env: Seq<(Seq<char>, Seq<char>)>,
) -> Result<SelectionDetailV, Seq<char>> {
    match parsed_number(input) {
        Some(number) => match numbered_from(options, number, 0) {
            Some(i) => Ok(option_selection(options[i], env)),
            None => Err("No model with number "@ + decimal_spec(number as nat)),
        },
        None => {
            let start = first_non_ws(input, 0);
            let end = token_end(input, start);
            if start >= input.len() {
                Err("Please provide a provider and model identifier."@)
            } else {
                let provider = ascii_lowercase(input.subrange(start, end));
                let model = crate::llm::providers::openrouter::decoder::normalized_chunk(
                    input.subrange(end, input.len() as int),
                );
                if model.len() == 0 {
                    Err("Provide both provider and model. Example: 'openai gpt-5'"@)
                } else {
                    match offered_from(options, provider, Some(model), 0) {
                        Some(i) => Ok(option_selection(options[i], env)),
                        None => Ok(custom_selection(options, provider, model, env)),
                    }
                }
            }
        },
    }
}

/// The selection for a provider and a model entered by hand: a provider
/// that the options know keeps its label and its variable, any other gets
/// them from its name; the model is taken as it is, without a reasoning
/// effort of its own.
pub open spec fn custom_selection(
    options: Seq<ModelOptionV>,
    provider: Seq<char>,
    model: Seq<char>,
    env: Seq<(Seq<char>, Seq<char>)>,
) -> SelectionDetailV {
    let known = offered_from(options, provider, None, 0);
    let key = match known {
        Some(i) => options[i].env_key,
        None => env_key(provider),
    };
    SelectionDetailV {
        provider_key: provider,
        provider_label: match known {
            Some(i) => options[i].provider_label,
            None => titled(provider),
        },
        known_provider: known is Some,
        model_id: model,
        model_display: model,
        known_model: false,
        reasoning_supported: false,
        reasoning_optional: true,
        requires_api_key: needs_key(env, key),
        env_key: key,
    }
}

/// The model of a selection or a complaint.
pub open spec fn selection_result_view(r: Result<SelectionDetail, String>) -> Result<
    SelectionDetailV,
    Seq<char>,
> {
    match r {
        Ok(s) => Ok(s@),
        Err(e) => Err(e@),
    }
}

/// Reads a typed selection.
pub fn parse_model_selection(options: &[ModelOption], input: &str, env: &[(String, String)])
    -> (r: Result<SelectionDetail, String>)
    ensures
        selection_result_view(r) == parsed_selection(
            option_views(options@),
            input@,
            env_views(env@),
        ),
{
    let chars = chars_of(input);
    if let Some(number) = parse_number(chars.as_slice()) {
        return match find_numbered(options, number) {
            Some(i) => Ok(selection_from_option(&options[i], env)),
            None => Err(
                crate::text::concat(
                    "No model with number ",
                    crate::text::decimal(number as u64).as_str(),
                ),
            ),
        };
    }
    let start = crate::text::trim_start_index(chars.as_slice());
    if start >= chars.len() {
        return Err("Please provide a provider and model identifier.".to_owned());
    }
    let mut end: usize = start;
    while end < chars.len() && !chars[end].is_whitespace()
        invariant
            start <= end <= chars.len(),
            chars@ == input@,
            token_end(input@, end as int) == token_end(input@, start as int),
        decreases chars.len() - end,
    {
        end += 1;
    }
    let token = crate::text::slice_chars(chars.as_slice(), start, end);
    let provider = string_of(ascii_lowercase_chars(token.as_slice()).as_slice());
    let rest = crate::text::slice_chars(chars.as_slice(), end, chars.len());
    let model = crate::llm::providers::openrouter::decoder::ReasoningBuffer::normalize_chunk(
        string_of(rest.as_slice()).as_str(),
    );
    if model.as_str().is_empty() {
        return Err("Provide both provider and model. Example: 'openai gpt-5'".to_owned());
    }
    if let Some(i) = find_offered(options, provider.as_str(), Some(model.as_str())) {
        return Ok(selection_from_option(&options[i], env));
    }
    let known = find_offered(options, provider.as_str(), None);
    let (label, key) = match known {
        Some(i) => (options[i].provider_label.clone(), options[i].env_key.clone()),
        None => (title_case(provider.as_str()), derive_env_key(provider.as_str())),
    };
    Ok(
        SelectionDetail {
            provider_key: provider,
            provider_label: label,
            known_provider: known.is_some(),
            model_id: model.clone(),
            model_display: model,
            known_model: false,
            reasoning_supported: false,
            reasoning_optional: true,
            requires_api_key: check_needs_key(env, key.as_str()),
            env_key: key,
        },
    )
}

/// Where the picker stands.
#[derive(Clone, Copy, Debug, PartialEq, Eq, Structural)]
pub enum PickerStep {
    AwaitModel,
    AwaitReasoning,
    AwaitApiKey,
}

/// How a line is written.
#[derive(Clone, Copy, Debug, PartialEq, Eq, Structural)]
pub enum MessageStyle {
    Info,
    Error,
}

/// Model of a [`PickerLine`].
pub struct PickerLineV {
    pub style: MessageStyle,
    pub text: Seq<char>,
}

/// A line for the caller to write.
#[derive(Debug)]
pub struct PickerLine {
    pub style: MessageStyle,
    pub text: String,
}

impl View for PickerLine {
    type V = PickerLineV;

    open spec fn view(&self) -> PickerLineV {
        PickerLineV { style: self.style, text: self.text@ }
    }
}

/// The models of a list of lines.
pub open spec fn line_views(lines: Seq<PickerLine>) -> Seq<PickerLineV> {
    Seq::new(lines.len(), |i: int| lines[i]@)
}

/// A line of information.
pub open spec fn info(text: Seq<char>) -> PickerLineV {
    PickerLineV { style: MessageStyle::Info, text }
}

/// A line that complains.
pub open spec fn complaint(text: Seq<char>) -> PickerLineV {
    PickerLineV { style: MessageStyle::Error, text }
}

/// Model of a [`ModelSelectionResult`].
pub struct ModelSelectionResultV {
    pub provider: Seq<char>,
    pub provider_label: Seq<char>,
    pub known_provider: bool,
    pub model: Seq<char>,
    pub model_display: Seq<char>,
    pub known_model: bool,
    pub reasoning_supported: bool,
    pub reasoning: ReasoningEffortLevel,
    pub reasoning_changed: bool,
    pub api_key: Option<Seq<char>>,
    pub env_key: Seq<char>,
    pub requires_api_key: bool,
}

/// What the picker ends with: the provider and the model, the reasoning
/// effort and whether it changed, and the key where one was entered.
#[derive(Debug)]
pub struct ModelSelectionResult {
    pub provider: String,
    pub provider_label: String,
    pub known_provider: bool,
    pub model: String,
    pub model_display: String,
    pub known_model: bool,
    pub reasoning_supported: bool,
    pub reasoning: ReasoningEffortLevel,
    pub reasoning_changed: bool,
    pub api_key: Option<String>,
    pub env_key: String,
    pub requires_api_key: bool,
}

impl View for ModelSelectionResult {
    type V = ModelSelectionResultV;

    open spec fn view(&self) -> ModelSelectionResultV {
        ModelSelectionResultV {
            provider: self.provider@,
            provider_label: self.provider_label@,
            known_provider: self.known_provider,
            model: self.model@,
            model_display: self.model_display@,
            known_model: self.known_model,
            reasoning_supported: self.reasoning_supported,
            reasoning: self.reasoning,
            reasoning_changed: self.reasoning_changed,
            api_key: opt_text(self.api_key),
            env_key: self.env_key@,
            requires_api_key: self.requires_api_key,
        }
    }
}

/// Model of a [`ModelPickerProgress`].
pub enum ModelPickerProgressV {
    InProgress,
    Completed(ModelSelectionResultV),
    Cancelled,
}

/// How far the picker has come.
#[derive(Debug)]
pub enum ModelPickerProgress {
    InProgress,
    Completed(ModelSelectionResult),
    Cancelled,
}

impl View for ModelPickerProgress {
    type V = ModelPickerProgressV;

    open spec fn view(&self) -> ModelPickerProgressV {
        match self {
            ModelPickerProgress::InProgress => ModelPickerProgressV::InProgress,
            ModelPickerProgress::Completed(r) => ModelPickerProgressV::Completed(r@),
            ModelPickerProgress::Cancelled => ModelPickerProgressV::Cancelled,
        }
    }
}

/// What was chosen in a list: a model by its number, the entry by hand,
/// a reasoning effort, or something that is not the picker's.
#[derive(Clone, Copy, Debug, PartialEq, Eq, Structural)]
pub enum InlineListSelection {
    Model(usize),
    CustomModel,
    Reasoning(ReasoningEffortLevel),
    Theme,
    Session,
    SlashCommand,
}

/// Model of a [`PickerOutput`].
pub struct PickerOutputV {
    pub progress: ModelPickerProgressV,
    pub lines: Seq<PickerLineV>,
    pub close_modal: bool,
    pub show_reasoning_list: bool,
}

/// What a step of the picker asks of the caller: how far the picker has
/// come, the lines to write, whether the list on show is to be closed
/// first, and whether the list of reasoning efforts is to be shown.
#[derive(Debug)]
pub struct PickerOutput {
    pub progress: ModelPickerProgress,
    pub lines: Vec<PickerLine>,
    pub close_modal: bool,
    pub show_reasoning_list: bool,
}

impl View for PickerOutput {
    type V = PickerOutputV;

    open spec fn view(&self) -> PickerOutputV {
        PickerOutputV {
            progress: self.progress@,
            lines: line_views(self.lines@),
            close_modal: self.close_modal,
            show_reasoning_list: self.show_reasoning_list,
        }
    }
}

/// Model of a [`ModelPickerState`].
pub struct ModelPickerStateV {
    pub options: Seq<ModelOptionV>,
    pub step: PickerStep,
    pub inline_enabled: bool,
    pub current_reasoning: ReasoningEffortLevel,
    pub selection: Option<SelectionDetailV>,
    pub selected_reasoning: Option<ReasoningEffortLevel>,
    pub pending_api_key: Option<Seq<char>>,
}

/// The picker between two inputs.
#[derive(Debug)]
pub struct ModelPickerState {
    pub options: Vec<ModelOption>,
    pub step: PickerStep,
    pub inline_enabled: bool,
    pub current_reasoning: ReasoningEffortLevel,
    pub selection: Option<SelectionDetail>,
    pub selected_reasoning: Option<ReasoningEffortLevel>,
    pub pending_api_key: Option<String>,
}

impl View for ModelPickerState {
    type V = ModelPickerStateV;

    open spec fn view(&self) -> ModelPickerStateV {
        ModelPickerStateV {
            options: option_views(self.options@),
            step: self.step,
            inline_enabled: self.inline_enabled,
            current_reasoning: self.current_reasoning,
            selection: match self.selection {
                Some(s) => Some(s@),
                None => None,
            },
            selected_reasoning: self.selected_reasoning,
            pending_api_key: opt_text(self.pending_api_key),
        }
    }
}

/// A step of the picker: the state after it and what it asks of the
/// caller.
pub struct PickerTurnV {
    pub state: ModelPickerStateV,
    pub output: PickerOutputV,
}

/// The word that a model was selected.
pub open spec fn selected_message(selection: SelectionDetailV) -> Seq<char> {
    "Selected "@ + selection.model_display + " ("@ + selection.model_id + ") from "@
        + selection.provider_label + "."@
}

/// The line that asks for a reasoning effort.
pub open spec fn reasoning_line(selection: SelectionDetailV, current: ReasoningEffortLevel)
    -> PickerLineV {
    if selection.reasoning_optional {
        info(
            "Step 2 – reasoning effort (current: "@ + level_name(current)
                + "). Choose easy/medium/hard or type 'skip' if the model does not expose configurable reasoning."@,
        )
    } else {
        info(
            "Step 2 – select reasoning effort for "@ + selection.model_display
                + " (easy/medium/hard). Current: "@ + level_name(current) + "."@,
        )
    }
}

/// The lines that ask for a key.
pub open spec fn api_key_lines(selection: SelectionDetailV) -> Seq<PickerLineV> {
    seq![
        info(
            "Step 3 – enter an API key for "@ + selection.provider_label + " (env: "@
                + selection.env_key + ")."@,
        ),
        info("Paste the API key now or type 'skip' to reuse the existing environment value."@),
    ]
}

/// The lines that ask for a provider and a model entered by hand.
pub open spec fn custom_entry_lines() -> Seq<PickerLineV> {
    seq![
        info("Enter a provider and model identifier (example: 'openai gpt-4o-mini')."@),
        info("Type 'cancel' to exit the picker at any time."@),
    ]
}

/// The reasoning effort that a typed word asks for, `skip` keeping the
/// current one.
pub open spec fn typed_level(word: Seq<char>, current: ReasoningEffortLevel) -> Option<
    ReasoningEffortLevel,
> {
    if word == "easy"@ || word == "low"@ {
        Some(ReasoningEffortLevel::Low)
    } else if word == "medium"@ {
        Some(ReasoningEffortLevel::Medium)
    } else if word == "hard"@ || word == "high"@ {
        Some(ReasoningEffortLevel::High)
    } else if word == "skip"@ {
        Some(current)
    } else {
        None
    }
}

impl ModelPickerStateV {
    /// The picker as it stands, with lines to write.
    pub open spec fn stays(self, lines: Seq<PickerLineV>, close_modal: bool) -> PickerTurnV {
        PickerTurnV {
            state: self,
            output: PickerOutputV {
                progress: ModelPickerProgressV::InProgress,
                lines,
                close_modal,
                show_reasoning_list: false,
            },
        }
    }

    /// What the picker ends with, given the selection: the reasoning
    /// effort that was chosen, or the current one, and the key that was
    /// entered.
    pub open spec fn result_for(self, selection: SelectionDetailV) -> ModelSelectionResultV {
        let chosen = match self.selected_reasoning {
            Some(level) => level,
            None => self.current_reasoning,
        };
        ModelSelectionResultV {
            provider: selection.provider_key,
            provider_label: selection.provider_label,
            known_provider: selection.known_provider,
            model: selection.model_id,
            model_display: selection.model_display,
            known_model: selection.known_model,
            reasoning_supported: selection.reasoning_supported,
            reasoning: chosen,
            reasoning_changed: chosen != self.current_reasoning,
            api_key: self.pending_api_key,
            env_key: selection.env_key,
            requires_api_key: selection.requires_api_key,
        }
    }

    /// The picker at its end.
    pub open spec fn completed(
        self,
        selection: SelectionDetailV,
        lines: Seq<PickerLineV>,
        close_modal: bool,
    ) -> PickerTurnV {
        PickerTurnV {
            state: self,
            output: PickerOutputV {
                progress: ModelPickerProgressV::Completed(self.result_for(selection)),
                lines,
                close_modal,
                show_reasoning_list: false,
            },
        }
    }

    /// The picker asking for a key: a list on show is closed, and the
    /// lines that ask follow those already owed.
    pub open spec fn asks_key(
        self,
        selection: SelectionDetailV,
        lines: Seq<PickerLineV>,
        close_modal: bool,
    ) -> PickerTurnV {
        goes_on(
            ModelPickerStateV { step: PickerStep::AwaitApiKey, ..self },
            lines + api_key_lines(selection),
            close_modal || self.inline_enabled,
            false,
        )
    }

    /// The picker asking for a reasoning effort: by a list where lists
    /// can be shown, else by a line.
    pub open spec fn asks_reasoning(self, selection: SelectionDetailV, lines: Seq<PickerLineV>)
        -> PickerTurnV {
        if self.inline_enabled {
            goes_on(self, lines, false, true)
        } else {
            goes_on(
                self,
                lines.push(reasoning_line(selection, self.current_reasoning)),
                false,
                false,
            )
        }
    }

    /// The picker after a model was selected: the selection is said and
    /// kept; the reasoning effort is asked for where the model takes one,
    /// else the key where one is needed, else the picker ends.
    pub open spec fn after_selection(self, selection: SelectionDetailV) -> PickerTurnV {
        let lines = seq![info(selected_message(selection))];
        let kept = ModelPickerStateV { selection: Some(selection), ..self };
        if selection.reasoning_supported {
            ModelPickerStateV { step: PickerStep::AwaitReasoning, ..kept }.asks_reasoning(
                selection,
                lines,
            )
        } else if selection.requires_api_key {
            kept.asks_key(selection, lines, false)
        } else {
            kept.completed(selection, lines, false)
        }
    }

    /// The picker after a reasoning effort was chosen: the key is asked
    /// for where one is needed, else the picker ends.
    pub open spec fn after_reasoning_choice(
        self,
        selection: SelectionDetailV,
        level: ReasoningEffortLevel,
        close_modal: bool,
    ) -> PickerTurnV {
        let kept = ModelPickerStateV { selected_reasoning: Some(level), ..self };
        if selection.requires_api_key {
            kept.asks_key(selection, Seq::empty(), close_modal)
        } else {
            kept.completed(selection, Seq::empty(), close_modal)
        }
    }

    /// The picker after a key, or `skip`, was typed: `skip` ends the
    /// picker where the environment holds a key and asks again where it
    /// does not; anything else is the key.
    pub open spec fn after_key_input(
        self,
        selection: SelectionDetailV,
        input: Seq<char>,
        env: Seq<(Seq<char>, Seq<char>)>,
    ) -> PickerTurnV {
        if eq_ignoring_ascii_case(input, "skip"@) {
            if !needs_key(env, selection.env_key) {
                ModelPickerStateV { pending_api_key: None, ..self }.completed(
                    selection,
                    seq![
                        info(
                            "Using existing environment variable "@ + selection.env_key + " for "@
                                + selection.provider_label + "."@,
                        ),
                    ],
                    false,
                )
            } else {
                self.stays(
                    seq![
                        complaint(
                            "Environment variable "@ + selection.env_key
                                + " is not set. Please provide an API key."@,
                        ),
                    ] + api_key_lines(selection),
                    false,
                )
            }
        } else {
            ModelPickerStateV { pending_api_key: Some(input), ..self }.completed(
                selection,
                Seq::empty(),
                false,
            )
        }
    }

    /// The picker after a line of input, or the complaint about a picker
    /// that asks for a reasoning effort or a key before a model was
    /// selected. Blank input is asked for again, a word that gives up
    /// cancels, and anything else goes to the step the picker is at.
    pub open spec fn after_input(self, input: Seq<char>, env: Seq<(Seq<char>, Seq<char>)>)
        -> Result<PickerTurnV, Seq<char>> {
        let trimmed = trim_spec(input);
        if trimmed.len() == 0 {
            Ok(self.stays(seq![complaint("Please enter a value or type 'cancel'."@)], false))
        } else if cancels(trimmed) {
            Ok(
                PickerTurnV {
                    state: self,
                    output: PickerOutputV {
                        progress: ModelPickerProgressV::Cancelled,
                        lines: seq![info("Model picker cancelled."@)],
                        close_modal: false,
                        show_reasoning_list: false,
                    },
                },
            )
        } else {
            match self.step {
                PickerStep::AwaitModel => match parsed_selection(self.options, trimmed, env) {
                    Ok(selection) => Ok(self.after_selection(selection)),
                    Err(message) => Ok(
                        self.stays(
                            seq![
                                complaint(message),
                                info(
                                    "Try again with a model number or '<provider> <model-id>'."@,
                                ),
                            ],
                            false,
                        ),
                    ),
                },
                PickerStep::AwaitReasoning => match self.selection {
                    None => Err("Reasoning requested before selecting a model"@),
                    Some(selection) => match typed_level(
                        ascii_lowercase(trimmed),
                        self.current_reasoning,
                    ) {
                        Some(level) => Ok(self.after_reasoning_choice(selection, level, false)),
                        None => Ok(
                            self.asks_reasoning(
                                selection,
                                seq![
                                    complaint(
                                        "Unknown reasoning level. Use easy, medium, hard, or skip."@,
                                    ),
                                ],
                            ),
                        ),
                    },
                },
                PickerStep::AwaitApiKey => match self.selection {
                    None => Err("API key requested before selecting a model"@),
                    Some(selection) => Ok(self.after_key_input(selection, trimmed, env)),
                },
            }
        }
    }

    /// The picker after a choice in a list, or the complaint about a
    /// picker that asks for a reasoning effort before a model was
    /// selected.
    pub open spec fn after_list_selection(
        self,
        choice: InlineListSelection,
        env: Seq<(Seq<char>, Seq<char>)>,
    ) -> Result<PickerTurnV, Seq<char>> {
        match self.step {
            PickerStep::AwaitModel => match choice {
                InlineListSelection::Model(number) => match numbered_from(self.options, number, 0) {
                    Some(i) => Ok(self.after_selection(option_selection(self.options[i], env))),
                    None => Ok(
                        self.stays(
                            seq![complaint("Unable to locate the selected model option."@)],
                            false,
                        ),
                    ),
                },
                InlineListSelection::CustomModel => Ok(self.stays(custom_entry_lines(), true)),
                InlineListSelection::Reasoning(_) => Ok(
                    self.stays(
                        seq![complaint("Select a model before configuring reasoning effort."@)],
                        false,
                    ),
                ),
                _ => Ok(self.stays(Seq::empty(), false)),
            },
            PickerStep::AwaitReasoning => match choice {
                InlineListSelection::Reasoning(level) => match self.selection {
                    None => Err("Reasoning requested before selecting a model"@),
                    Some(selection) => Ok(self.after_reasoning_choice(selection, level, true)),
                },
                InlineListSelection::CustomModel | InlineListSelection::Model(_) => Ok(
                    self.stays(
                        seq![
                            complaint(
                                "Reasoning selection is active. Choose a reasoning level or press Esc to cancel."@,
                            ),
                        ],
                        false,
                    ),
                ),
                _ => Ok(self.stays(Seq::empty(), false)),
            },
            PickerStep::AwaitApiKey => Ok(
                self.stays(
                    seq![info("Enter the API key in the input field or type 'skip'."@)],
                    false,
                ),
            ),
        }
    }
}

/// The turn of a picker that goes on in a state.
pub open spec fn goes_on(
    state: ModelPickerStateV,
    lines: Seq<PickerLineV>,
    close_modal: bool,
    show_reasoning_list: bool,
) -> PickerTurnV {
    PickerTurnV {
        state,
        output: PickerOutputV {
            progress: ModelPickerProgressV::InProgress,
            lines,
            close_modal,
            show_reasoning_list,
        },
    }
}

fn add_line(lines: &mut Vec<PickerLine>, style: MessageStyle, text: String)
    ensures
        line_views(final(lines)@) == line_views(old(lines)@).push(PickerLineV { style, text: text@ }),
{
    let ghost before = line_views(lines@);
    let line = PickerLine { style, text };
    lines.push(line);
    assert(line_views(lines@) =~= before.push(line@));
}

fn no_lines() -> (r: Vec<PickerLine>)
    ensures
        line_views(r@) == Seq::<PickerLineV>::empty(),
{
    let r: Vec<PickerLine> = Vec::new();
    assert(line_views(r@) =~= Seq::empty());
    r
}

fn add_api_key_lines(lines: &mut Vec<PickerLine>, selection: &SelectionDetail)
    ensures
        line_views(final(lines)@) == line_views(old(lines)@) + api_key_lines(selection@),
{
    let ghost before = line_views(lines@);
    let mut first = "Step 3 – enter an API key for ".to_owned();
    first.append(selection.provider_label.as_str());
    first.append(" (env: ");
    first.append(selection.env_key.as_str());
    first.append(").");
    add_line(lines, MessageStyle::Info, first);
    add_line(
        lines,
        MessageStyle::Info,
        "Paste the API key now or type 'skip' to reuse the existing environment value.".to_owned(),
    );
    assert(line_views(lines@) =~= before + api_key_lines(selection@));
}

fn make_reasoning_line(selection: &SelectionDetail, current: ReasoningEffortLevel) -> (r: String)
    ensures
        r@ == reasoning_line(selection@, current).text,
{
    if selection.reasoning_optional {
        let mut text = "Step 2 – reasoning effort (current: ".to_owned();
        text.append(current.as_str());
        text.append(
            "). Choose easy/medium/hard or type 'skip' if the model does not expose configurable reasoning.",
        );
        text
    } else {
        let mut text = "Step 2 – select reasoning effort for ".to_owned();
        text.append(selection.model_display.as_str());
        text.append(" (easy/medium/hard). Current: ");
        text.append(current.as_str());
        text.append(".");
        text
    }
}

fn read_level(word: &Vec<char>, current: ReasoningEffortLevel) -> (r: Option<ReasoningEffortLevel>)
    ensures
        r == typed_level(word@, current),
{
    if is_word(word, "easy") || is_word(word, "low") {
        Some(ReasoningEffortLevel::Low)
    } else if is_word(word, "medium") {
        Some(ReasoningEffortLevel::Medium)
    } else if is_word(word, "hard") || is_word(word, "high") {
        Some(ReasoningEffortLevel::High)
    } else if is_word(word, "skip") {
        Some(current)
    } else {
        None
    }
}

/// The turn that an output and the state after it stand for.
pub open spec fn turn_of(state: ModelPickerState, output: PickerOutput) -> PickerTurnV {
    PickerTurnV { state: state@, output: output@ }
}

impl ModelPickerState {
    /// The picker before a model is selected.
    pub fn new(
        options: Vec<ModelOption>,
        inline_enabled: bool,
        current_reasoning: ReasoningEffortLevel,
    ) -> (r: ModelPickerState)
        ensures
            r@ == (ModelPickerStateV {
                options: option_views(options@),
                step: PickerStep::AwaitModel,
                inline_enabled,
                current_reasoning,
                selection: None,
                selected_reasoning: None,
                pending_api_key: None,
            }),
    {
        ModelPickerState {
            options,
            step: PickerStep::AwaitModel,
            inline_enabled,
            current_reasoning,
            selection: None,
            selected_reasoning: None,
            pending_api_key: None,
        }
    }

    fn stay(&self, lines: Vec<PickerLine>, close_modal: bool) -> (r: PickerOutput)
        ensures
            turn_of(*self, r) == self@.stays(line_views(lines@), close_modal),
    {
        PickerOutput {
            progress: ModelPickerProgress::InProgress,
            lines,
            close_modal,
            show_reasoning_list: false,
        }
    }

    fn build_result(&self, selection: &SelectionDetail) -> (r: ModelSelectionResult)
        ensures
            r@ == self@.result_for(selection@),
    {
        let chosen = match self.selected_reasoning {
            Some(level) => level,
            None => self.current_reasoning,
        };
        ModelSelectionResult {
            provider: selection.provider_key.clone(),
            provider_label: selection.provider_label.clone(),
            known_provider: selection.known_provider,
            model: selection.model_id.clone(),
            model_display: selection.model_display.clone(),
            known_model: selection.known_model,
            reasoning_supported: selection.reasoning_supported,
            reasoning: chosen,
            reasoning_changed: chosen != self.current_reasoning,
            api_key: crate::llm::provider::duplicate_opt_text(&self.pending_api_key),
            env_key: selection.env_key.clone(),
            requires_api_key: selection.requires_api_key,
        }
    }

    fn complete(&self, selection: &SelectionDetail, lines: Vec<PickerLine>, close_modal: bool)
        -> (r: PickerOutput)
        ensures
            turn_of(*self, r) == self@.completed(selection@, line_views(lines@), close_modal),
    {
        PickerOutput {
            progress: ModelPickerProgress::Completed(self.build_result(selection)),
            lines,
            close_modal,
            show_reasoning_list: false,
        }
    }

    fn prompt_api_key_step(
        &mut self,
        selection: &SelectionDetail,
        lines: Vec<PickerLine>,
        close_modal: bool,
    ) -> (r: PickerOutput)
        ensures
            turn_of(*final(self), r) == old(self)@.asks_key(
                selection@,
                line_views(lines@),
                close_modal,
            ),
    {
        let mut lines = lines;
        add_api_key_lines(&mut lines, selection);
        self.step = PickerStep::AwaitApiKey;
        PickerOutput {
            progress: ModelPickerProgress::InProgress,
            lines,
            close_modal: close_modal || self.inline_enabled,
            show_reasoning_list: false,
        }
    }

    fn prompt_reasoning_step(&self, selection: &SelectionDetail, lines: Vec<PickerLine>) -> (r:
        PickerOutput)
        ensures
            turn_of(*self, r) == self@.asks_reasoning(selection@, line_views(lines@)),
    {
        let mut lines = lines;
        if !self.inline_enabled {
            add_line(
                &mut lines,
                MessageStyle::Info,
                make_reasoning_line(selection, self.current_reasoning),
            );
        }
        PickerOutput {
            progress: ModelPickerProgress::InProgress,
            lines,
            close_modal: false,
            show_reasoning_list: self.inline_enabled,
        }
    }

    fn process_model_selection(&mut self, selection: SelectionDetail) -> (r: PickerOutput)
        ensures
            turn_of(*final(self), r) == old(self)@.after_selection(selection@),
    {
        let mut message = "Selected ".to_owned();
        message.append(selection.model_display.as_str());
        message.append(" (");
        message.append(selection.model_id.as_str());
        message.append(") from ");
        message.append(selection.provider_label.as_str());
        message.append(".");
        let mut lines = no_lines();
        add_line(&mut lines, MessageStyle::Info, message);
        assert(line_views(lines@) =~= seq![info(selected_message(selection@))]);
        self.selection = Some(selection.duplicate());
        if selection.reasoning_supported {
            self.step = PickerStep::AwaitReasoning;
            self.prompt_reasoning_step(&selection, lines)
        } else if selection.requires_api_key {
            self.prompt_api_key_step(&selection, lines, false)
        } else {
            self.complete(&selection, lines, false)
        }
    }

    fn apply_reasoning_choice(
        &mut self,
        selection: &SelectionDetail,
        level: ReasoningEffortLevel,
        close_modal: bool,
    ) -> (r: PickerOutput)
        ensures
            turn_of(*final(self), r) == old(self)@.after_reasoning_choice(
                selection@,
                level,
                close_modal,
            ),
    {
        self.selected_reasoning = Some(level);
        if selection.requires_api_key {
            self.prompt_api_key_step(selection, no_lines(), close_modal)
        } else {
            self.complete(selection, no_lines(), close_modal)
        }
    }

    fn handle_api_key(&mut self, selection: &SelectionDetail, input: &str, env: &[(
        String,
        String,
    )]) -> (r: PickerOutput)
        ensures
            turn_of(*final(self), r) == old(self)@.after_key_input(
                selection@,
                input@,
                env_views(env@),
            ),
    {
        if crate::text::str_eq_ignore_ascii_case(input, "skip") {
            if !check_needs_key(env, selection.env_key.as_str()) {
                let mut text = "Using existing environment variable ".to_owned();
                text.append(selection.env_key.as_str());
                text.append(" for ");
                text.append(selection.provider_label.as_str());
                text.append(".");
                let mut lines = no_lines();
                add_line(&mut lines, MessageStyle::Info, text);
                assert(line_views(lines@) =~= seq![
                    info(
                        "Using existing environment variable "@ + selection@.env_key + " for "@
                            + selection@.provider_label + "."@,
                    ),
                ]);
                self.pending_api_key = None;
                return self.complete(selection, lines, false);
            }
            let mut text = "Environment variable ".to_owned();
            text.append(selection.env_key.as_str());
            text.append(" is not set. Please provide an API key.");
            let mut lines = no_lines();
            add_line(&mut lines, MessageStyle::Error, text);
            let ghost first = line_views(lines@);
            assert(first =~= seq![
                complaint(
                    "Environment variable "@ + selection@.env_key
                        + " is not set. Please provide an API key."@,
                ),
            ]);
            add_api_key_lines(&mut lines, selection);
            return self.stay(lines, false);
        }
        self.pending_api_key = Some(input.to_owned());
        self.complete(selection, no_lines(), false)
    }

    /// Takes a line of input.
    pub fn handle_input(&mut self, input: &str, env: &[(String, String)]) -> (r: Result<
        PickerOutput,
        String,
    >)
        ensures
            match r {
                Ok(output) => old(self)@.after_input(input@, env_views(env@)) == Ok::<
                    PickerTurnV,
                    Seq<char>,
                >(turn_of(*final(self), output)),
                Err(message) => old(self)@.after_input(input@, env_views(env@)) == Err::<
                    PickerTurnV,
                    Seq<char>,
                >(message@) && *final(self) == *old(self),
            },
    {
        let trimmed = crate::text::str_trim(input);
        if trimmed.as_str().is_empty() {
            let mut lines = no_lines();
            add_line(
                &mut lines,
                MessageStyle::Error,
                "Please enter a value or type 'cancel'.".to_owned(),
            );
            assert(line_views(lines@) =~= seq![
                complaint("Please enter a value or type 'cancel'."@),
            ]);
            return Ok(self.stay(lines, false));
        }
        if is_cancel_command(trimmed.as_str()) {
            let mut lines = no_lines();
            add_line(&mut lines, MessageStyle::Info, "Model picker cancelled.".to_owned());
            assert(line_views(lines@) =~= seq![info("Model picker cancelled."@)]);
            return Ok(
                PickerOutput {
                    progress: ModelPickerProgress::Cancelled,
                    lines,
                    close_modal: false,
                    show_reasoning_list: false,
                },
            );
        }
        match self.step {
            PickerStep::AwaitModel => {
                match parse_model_selection(self.options.as_slice(), trimmed.as_str(), env) {
                    Ok(selection) => Ok(self.process_model_selection(selection)),
                    Err(message) => {
                        let mut lines = no_lines();
                        add_line(&mut lines, MessageStyle::Error, message);
                        add_line(
                            &mut lines,
                            MessageStyle::Info,
                            "Try again with a model number or '<provider> <model-id>'.".to_owned(),
                        );
                        assert(line_views(lines@) =~= seq![
                            complaint(message@),
                            info("Try again with a model number or '<provider> <model-id>'."@),
                        ]);
                        Ok(self.stay(lines, false))
                    },
                }
            },
            PickerStep::AwaitReasoning => {
                let selection = match &self.selection {
                    Some(selection) => selection.duplicate(),
                    None => {
                        return Err("Reasoning requested before selecting a model".to_owned());
                    },
                };
                let word = ascii_lowercase_chars(chars_of(trimmed.as_str()).as_slice());
                match read_level(&word, self.current_reasoning) {
                    Some(level) => Ok(self.apply_reasoning_choice(&selection, level, false)),
                    None => {
                        let mut lines = no_lines();
                        add_line(
                            &mut lines,
                            MessageStyle::Error,
                            "Unknown reasoning level. Use easy, medium, hard, or skip.".to_owned(),
                        );
                        assert(line_views(lines@) =~= seq![
                            complaint(
                                "Unknown reasoning level. Use easy, medium, hard, or skip."@,
                            ),
                        ]);
                        Ok(self.prompt_reasoning_step(&selection, lines))
                    },
                }
            },
            PickerStep::AwaitApiKey => {
                let selection = match &self.selection {
                    Some(selection) => selection.duplicate(),
                    None => {
                        return Err("API key requested before selecting a model".to_owned());
                    },
                };
                Ok(self.handle_api_key(&selection, trimmed.as_str(), env))
            },
        }
    }

    /// Takes a choice in a list.
    pub fn handle_list_selection(&mut self, choice: InlineListSelection, env: &[(
        String,
        String,
    )]) -> (r: Result<PickerOutput, String>)
        ensures
            match r {
                Ok(output) => old(self)@.after_list_selection(choice, env_views(env@)) == Ok::<
                    PickerTurnV,
                    Seq<char>,
                >(turn_of(*final(self), output)),
                Err(message) => old(self)@.after_list_selection(choice, env_views(env@)) == Err::<
                    PickerTurnV,
                    Seq<char>,
                >(message@) && *final(self) == *old(self),
            },
    {
        match self.step {
            PickerStep::AwaitModel => match choice {
                InlineListSelection::Model(number) => {
                    match find_numbered(self.options.as_slice(), number) {
                        Some(i) => {
                            let detail = selection_from_option(&self.options[i], env);
                            Ok(self.process_model_selection(detail))
                        },
                        None => {
                            let mut lines = no_lines();
                            add_line(
                                &mut lines,
                                MessageStyle::Error,
                                "Unable to locate the selected model option.".to_owned(),
                            );
                            assert(line_views(lines@) =~= seq![
                                complaint("Unable to locate the selected model option."@),
                            ]);
                            Ok(self.stay(lines, false))
                        },
                    }
                },
                InlineListSelection::CustomModel => {
                    let mut lines = no_lines();
                    add_line(
                        &mut lines,
                        MessageStyle::Info,
                        "Enter a provider and model identifier (example: 'openai gpt-4o-mini').".to_owned(),
                    );
                    add_line(
                        &mut lines,
                        MessageStyle::Info,
                        "Type 'cancel' to exit the picker at any time.".to_owned(),
                    );
                    assert(line_views(lines@) =~= custom_entry_lines());
                    Ok(self.stay(lines, true))
                },
                InlineListSelection::Reasoning(_) => {
                    let mut lines = no_lines();
                    add_line(
                        &mut lines,
                        MessageStyle::Error,
                        "Select a model before configuring reasoning effort.".to_owned(),
                    );
                    assert(line_views(lines@) =~= seq![
                        complaint("Select a model before configuring reasoning effort."@),
                    ]);
                    Ok(self.stay(lines, false))
                },
                _ => Ok(self.stay(no_lines(), false)),
            },
            PickerStep::AwaitReasoning => match choice {
                InlineListSelection::Reasoning(level) => {
                    let selection = match &self.selection {
                        Some(selection) => selection.duplicate(),
                        None => {
                            return Err("Reasoning requested before selecting a model".to_owned());
                        },
                    };
                    Ok(self.apply_reasoning_choice(&selection, level, true))
                },
                InlineListSelection::CustomModel | InlineListSelection::Model(_) => {
                    let mut lines = no_lines();
                    add_line(
                        &mut lines,
                        MessageStyle::Error,
                        "Reasoning selection is active. Choose a reasoning level or press Esc to cancel.".to_owned(),
                    );
                    assert(line_views(lines@) =~= seq![
                        complaint(
                            "Reasoning selection is active. Choose a reasoning level or press Esc to cancel."@,
                        ),
                    ]);
                    Ok(self.stay(lines, false))
                },
                _ => Ok(self.stay(no_lines(), false)),
            },
            PickerStep::AwaitApiKey => {
                let mut lines = no_lines();
                add_line(
                    &mut lines,
                    MessageStyle::Info,
                    "Enter the API key in the input field or type 'skip'.".to_owned(),
                );
                assert(line_views(lines@) =~= seq![
                    info("Enter the API key in the input field or type 'skip'."@),
                ]);
                Ok(self.stay(lines, false))
            },
        }
    }
}

/// Model of a [`PersistedChoice`].
pub struct PersistedChoiceV {
    pub provider: Seq<char>,
    pub api_key_env: Seq<char>,
    pub default_model: Seq<char>,
    pub reasoning_effort: ReasoningEffortLevel,
    pub custom_api_key: Option<Seq<char>>,
    pub router_model: Seq<char>,
}

/// What is written to the configuration for a selection: the provider,
/// the variable of its key, the model as the default and for every route,
/// the reasoning effort, and the key to keep for the provider, or none to
/// forget the one that is kept.
#[derive(Debug)]
pub struct PersistedChoice {
    pub provider: String,
    pub api_key_env: String,
    pub default_model: String,
    pub reasoning_effort: ReasoningEffortLevel,
    pub custom_api_key: Option<String>,
    pub router_model: String,
}

impl View for PersistedChoice {
    type V = PersistedChoiceV;

    open spec fn view(&self) -> PersistedChoiceV {
        PersistedChoiceV {
            provider: self.provider@,
            api_key_env: self.api_key_env@,
            default_model: self.default_model@,
            reasoning_effort: self.reasoning_effort,
            custom_api_key: opt_text(self.custom_api_key),
            router_model: self.router_model@,
        }
    }
}

impl ModelPickerState {
    /// What is written to the configuration for a selection.
    pub fn persist_selection(&self, selection: &ModelSelectionResult) -> (r: PersistedChoice)
        ensures
            r@ == (PersistedChoiceV {
                provider: selection@.provider,
                api_key_env: selection@.env_key,
                default_model: selection@.model,
                reasoning_effort: selection@.reasoning,
                custom_api_key: selection@.api_key,
                router_model: selection@.model,
            }),
    {
        PersistedChoice {
            provider: selection.provider.clone(),
            api_key_env: selection.env_key.clone(),
            default_model: selection.model.clone(),
            reasoning_effort: selection.reasoning,
            custom_api_key: crate::llm::provider::duplicate_opt_text(&selection.api_key),
            router_model: selection.model.clone(),
        }
    }
}

/// The lines that open the picker where no list can be shown.
pub open spec fn step_one_head() -> Seq<PickerLineV> {
    seq![
        info("Model picker – Step 1: select the model you want to use."@),
        info(
            "Enter the number next to a model or type '<provider> <model-id>' for custom entries."@,
        ),
        info("Type 'cancel' to exit the picker at any time."@),
    ]
}

/// The line of an option in the list of models.
pub open spec fn option_line(option: ModelOptionV) -> Seq<char> {
    "  ("@ + decimal_spec(option.index as nat) + ") "@ + option.display + " • "@ + option.id + (
    if option.supports_reasoning {
        " [reasoning]"@
    } else {
        Seq::<char>::empty()
    })
}

/// The lines of the options from index `i` on, added to `lines`: the
/// label of the provider wherever the provider is another than that of
/// the option before, then the option and what it is.
pub open spec fn option_lines_from(options: Seq<ModelOptionV>, i: int, lines: Seq<PickerLineV>)
    -> Seq<PickerLineV>
    decreases options.len() - i,
{
    if 0 <= i < options.len() {
        let headed = if i == 0 || options[i - 1].provider_key != options[i].provider_key {
            lines.push(info("["@ + options[i].provider_label + "]"@))
        } else {
            lines
        };
        option_lines_from(
            options,
            i + 1,
            headed.push(info(option_line(options[i]))).push(
                info("      "@ + options[i].description),
            ),
        )
    } else {
        lines
    }
}

/// The lines that open the picker where no list can be shown: how to
/// choose, then the models by provider.
pub fn render_step_one_plain(options: &[ModelOption]) -> (r: Vec<PickerLine>)
    ensures
        line_views(r@) == option_lines_from(option_views(options@), 0, step_one_head()),
{
    let mut lines = no_lines();
    add_line(
        &mut lines,
        MessageStyle::Info,
        "Model picker – Step 1: select the model you want to use.".to_owned(),
    );
    add_line(
        &mut lines,
        MessageStyle::Info,
        "Enter the number next to a model or type '<provider> <model-id>' for custom entries.".to_owned(),
    );
    add_line(
        &mut lines,
        MessageStyle::Info,
        "Type 'cancel' to exit the picker at any time.".to_owned(),
    );
    assert(line_views(lines@) =~= step_one_head());
    let ghost views = option_views(options@);
    let mut i: usize = 0;
    while i < options.len()
        invariant
            i <= options.len(),
            views == option_views(options@),
            option_lines_from(views, i as int, line_views(lines@)) == option_lines_from(
                views,
                0,
                step_one_head(),
            ),
        decreases options.len() - i,
    {
        let option = &options[i];
        if i == 0 || !str_eq(options[i - 1].provider_key.as_str(), option.provider_key.as_str()) {
            let mut heading = "[".to_owned();
            heading.append(option.provider_label.as_str());
            heading.append("]");
            add_line(&mut lines, MessageStyle::Info, heading);
        }
        let mut text = "  (".to_owned();
        text.append(crate::text::decimal(option.index as u64).as_str());
        text.append(") ");
        text.append(option.display.as_str());
        text.append(" • ");
        text.append(option.id.as_str());
        if option.supports_reasoning {
            text.append(" [reasoning]");
        }
        assert(text@ =~= option_line(views[i as int]));
        add_line(&mut lines, MessageStyle::Info, text);
        add_line(
            &mut lines,
            MessageStyle::Info,
            crate::text::concat("      ", option.description.as_str()),
        );
        i += 1;
    }
    lines
}

} // verus!
