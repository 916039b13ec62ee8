use vstd::prelude::*;

use vstd::string::StringExecFns;

use vstd::string::StringSliceAdditionalSpecFns;

use crate::component::Component;
use crate::dialog::{Dialog, DialogMsg};
use crate::display::Font;
use crate::frame::Frame;
use crate::numfmt::{dec_u16, spec_dec};
use crate::page::{ButtonPage, PageMsg};
use crate::pin::{PinPage, PinPageMsg};
use crate::seed_backup::{ConfirmWordPage, ConfirmWordPageMsg};
use crate::text::{FormattedText, Paragraphs};
use crate::theme;
use crate::words::{new_words, push_word, word_list_contents};

verus! {

broadcast use vstd::slice::group_slice_axioms;

/// The host-visible outcome of a flow: confirmed, cancelled, informational,
/// or a string payload the host converts further.
pub enum UiResult {
    Confirmed,
    Cancelled,
    Info,
    Value(String),
}

/// The outcome as the contracts speak of it: the payload as its character
/// sequence.
pub enum UiOutcome {
    Confirmed,
    Cancelled,
    Info,
    Value(Seq<char>),
}

impl View for UiResult {
    type V = UiOutcome;

    open spec fn view(&self) -> UiOutcome {
        match self {
            UiResult::Confirmed => UiOutcome::Confirmed,
            UiResult::Cancelled => UiOutcome::Cancelled,
            UiResult::Info => UiOutcome::Info,
            UiResult::Value(s) => UiOutcome::Value(s@),
        }
    }
}

/// A flow's error: a message that carries no host-visible outcome, or a
/// configuration that overflows the device's fixed buffers.
#[derive(Clone, Copy, PartialEq, Eq, Structural, Debug)]
pub enum UiError {
    TypeError,
    Capacity,
}

/// A translation result, as the contracts speak of it.
pub open spec fn result_outcome(r: Result<UiResult, UiError>) -> Result<UiOutcome, UiError> {
    match r {
        Ok(v) => Ok(v@),
        Err(e) => Err(e),
    }
}

/// The message translation boundary: the one place where widget-specific
/// messages become host-visible outcomes.
pub trait ComponentMsgObj: Component {
    /// What the translation returns, for each message.
    spec fn msg_obj_spec(&self, msg: Self::Msg) -> Result<UiOutcome, UiError>;

    fn msg_try_into_obj(&self, msg: Self::Msg) -> (r: Result<UiResult, UiError>)
        requires
            self.inv(),
        ensures
            result_outcome(r) == self.msg_obj_spec(msg),
    ;
}

impl<T: crate::component::Paginate> ComponentMsgObj for ButtonPage<T> {
    open spec fn msg_obj_spec(&self, msg: Self::Msg) -> Result<UiOutcome, UiError> {
        match msg {
            PageMsg::Content(_) => Err(UiError::TypeError),
            PageMsg::Controls(true) => Ok(UiOutcome::Confirmed),
            PageMsg::Controls(false) => Ok(UiOutcome::Cancelled),
        }
    }

    fn msg_try_into_obj(&self, msg: Self::Msg) -> (r: Result<UiResult, UiError>) {
        match msg {
            PageMsg::Content(_) => Err(UiError::TypeError),
            PageMsg::Controls(true) => Ok(UiResult::Confirmed),
            PageMsg::Controls(false) => Ok(UiResult::Cancelled),
        }
    }
}

impl ComponentMsgObj for PinPage {
    open spec fn msg_obj_spec(&self, msg: PinPageMsg) -> Result<UiOutcome, UiError> {
        match msg {
            PinPageMsg::Confirmed => Ok(UiOutcome::Value(self.spec_pin())),
            PinPageMsg::Cancelled => Ok(UiOutcome::Cancelled),
        }
    }

    fn msg_try_into_obj(&self, msg: PinPageMsg) -> (r: Result<UiResult, UiError>) {
        match msg {
            PinPageMsg::Confirmed => Ok(UiResult::Value(self.pin().to_owned())),
            PinPageMsg::Cancelled => Ok(UiResult::Cancelled),
        }
    }
}

impl ComponentMsgObj for ConfirmWordPage {
    open spec fn msg_obj_spec(&self, msg: ConfirmWordPageMsg) -> Result<UiOutcome, UiError> {
        match msg {
            ConfirmWordPageMsg::Confirmed => Ok(UiOutcome::Value(self.spec_current_word())),
        }
    }

    fn msg_try_into_obj(&self, msg: ConfirmWordPageMsg) -> (r: Result<UiResult, UiError>) {
        match msg {
            ConfirmWordPageMsg::Confirmed => Ok(UiResult::Value(self.get_current_word().to_owned())),
        }
    }
}

impl<T: ComponentMsgObj> ComponentMsgObj for Frame<T> {
    open spec fn msg_obj_spec(&self, msg: Self::Msg) -> Result<UiOutcome, UiError> {
        self.spec_content().msg_obj_spec(msg)
    }

    fn msg_try_into_obj(&self, msg: Self::Msg) -> (r: Result<UiResult, UiError>) {
        proof {
            self.lemma_content_inv();
        }
        self.inner().msg_try_into_obj(msg)
    }
}

impl<T: ComponentMsgObj> ComponentMsgObj for Dialog<T> {
    open spec fn msg_obj_spec(&self, msg: Self::Msg) -> Result<UiOutcome, UiError> {
        match msg {
            DialogMsg::Content(c) => self.spec_content().msg_obj_spec(c),
            DialogMsg::LeftClicked => Ok(UiOutcome::Cancelled),
            DialogMsg::RightClicked => Ok(UiOutcome::Confirmed),
        }
    }

    fn msg_try_into_obj(&self, msg: Self::Msg) -> (r: Result<UiResult, UiError>) {
        proof {
            self.lemma_content_inv();
        }
        match msg {
            DialogMsg::Content(c) => self.inner().msg_try_into_obj(c),
            DialogMsg::LeftClicked => Ok(UiResult::Cancelled),
            DialogMsg::RightClicked => Ok(UiResult::Confirmed),
        }
    }
}

/// The words of a comma-delimited list, in order: a comma ends the word
/// before it, and the empty list is the one empty word.
pub open spec fn spec_split_words(s: Seq<char>) -> Seq<Seq<char>>
    decreases s.len(),
{
    if s.len() == 0 {
        seq![Seq::<char>::empty()]
    } else {
        let prefix = spec_split_words(s.drop_last());
        if s.last() == ',' {
            prefix + seq![Seq::<char>::empty()]
        } else {
            prefix.update(prefix.len() - 1, prefix.last().push(s.last()))
        }
    }
}

/// A split is never empty: there is always at least the one (possibly
/// empty) word.
pub proof fn lemma_split_words_len(s: Seq<char>)
    ensures
        spec_split_words(s).len() >= 1,
    decreases s.len(),
{
    if s.len() > 0 {
        lemma_split_words_len(s.drop_last());
    }
}

/// The views of a vector of strings.
pub open spec fn views_of(v: Seq<String>) -> Seq<Seq<char>> {
    v.map_values(|w: String| w@)
}

/// Split a comma-delimited list into its words.
pub fn split_words(s: &str) -> (r: Vec<String>)
    ensures
        views_of(r@) == spec_split_words(s@),
        r@.len() >= 1,
{
    let n = s.unicode_len();
    let mut out: Vec<String> = Vec::new();
    let mut cur: String = String::new();
    let mut i: usize = 0;
    proof {
        assert(s@.take(0) =~= Seq::<char>::empty());
        assert(views_of(out@).push(cur@) =~= spec_split_words(s@.take(0)));
    }
    while i < n
        invariant
            i <= n,
            n == s@.len(),
            views_of(out@).push(cur@) == spec_split_words(s@.take(i as int)),
        decreases n - i,
    {
        let c = s.get_char(i);
        let ghost pre_words = views_of(out@).push(cur@);
        if c == ',' {
            out.push(cur);
            cur = String::new();
            proof {
                assert(cur@ =~= Seq::<char>::empty());
                assert(views_of(out@).push(cur@) =~= pre_words + seq![Seq::<char>::empty()]);
            }
        } else {
            cur.append(s.substring_char(i, i + 1));
            proof {
                assert(s@.subrange(i as int, i as int + 1) =~= seq![s@[i as int]]);
                assert(cur@ =~= pre_words.last().push(s@[i as int]));
                assert(views_of(out@).push(cur@) =~= pre_words.update(
                    pre_words.len() - 1,
                    pre_words.last().push(s@[i as int]),
                ));
            }
        }
        i = i + 1;
        proof {
            assert(s@.take(i as int).drop_last() =~= s@.take(i as int - 1));
            assert(s@.take(i as int).last() == s@[i as int - 1]);
        }
    }
    proof {
        assert(s@.take(n as int) =~= s@);
    }
    out.push(cur);
    proof {
        lemma_split_words_len(s@);
    }
    out
}

/// The prompt of the word-confirmation flow, for the 0-based checked index
/// and the total count.
pub open spec fn spec_confirm_word_prompt(checked_index: u8, count: u8) -> Seq<char> {
    "Select word "@ + spec_dec((checked_index + 1) as nat) + " of "@ + spec_dec(count as nat)
        + ":"@
}

/// Whether a word list fits the device's fixed buffers: at most 24 words of
/// at most 50 bytes each.
pub open spec fn spec_words_fit(words: Seq<Seq<char>>) -> bool {
    words.len() <= 24 && (forall|j: int|
        0 <= j < words.len() ==> vstd::utf8::encode_utf8(#[trigger] words[j]).len() <= 50)
}

/// Build the word-confirmation screen: the prompt names the 1-based position
/// to confirm, and the page cycles over the comma-delimited choices,
/// starting at the word under confirmation. A configuration that overflows
/// the device's fixed buffers, more than 24 words or a word over 50 bytes,
/// is rejected whole, as is a checked position outside the list.
pub fn confirm_word(choices: &str, checked_index: u8, count: u8) -> (r: Result<
    ConfirmWordPage,
    UiError,
>)
    ensures
        r == Err::<ConfirmWordPage, UiError>(UiError::Capacity) <==> !spec_words_fit(
            spec_split_words(choices@),
        ),
        r == Err::<ConfirmWordPage, UiError>(UiError::TypeError) <==> (spec_words_fit(
            spec_split_words(choices@),
        ) && checked_index as int >= spec_split_words(choices@).len()),
        r is Ok ==> ({
            let page = r->Ok_0;
            page.inv() && page.spec_words() == spec_split_words(choices@) && page.spec_counter()
                == checked_index && page.spec_prompt() == spec_confirm_word_prompt(
                checked_index,
                count,
            ) && page.spec_idle()
        }),
{
    let parts = split_words(choices);
    let mut words = new_words();
    let mut i: usize = 0;
    proof {
        assert(word_list_contents(words) =~= views_of(parts@).take(0));
    }
    while i < parts.len()
        invariant
            i <= parts@.len(),
            i <= 24,
            views_of(parts@) == spec_split_words(choices@),
            word_list_contents(words) == views_of(parts@).take(i as int),
            forall|j: int|
                0 <= j < i ==> vstd::utf8::encode_utf8(
                    #[trigger] views_of(parts@)[j],
                ).len() <= 50,
        decreases parts@.len() - i,
    {
        let w = parts[i].as_str();
        if w.as_bytes().len() > 50 {
            proof {
                assert(views_of(parts@)[i as int] == parts@[i as int]@);
                assert(vstd::utf8::encode_utf8(spec_split_words(choices@)[i as int]).len() > 50);
            }
            return Err(UiError::Capacity);
        }
        if !push_word(&mut words, w) {
            proof {
                assert(w.spec_bytes().len() <= 50);
                assert(word_list_contents(words).len() == i);
                assert(i == 24);
                assert(spec_split_words(choices@).len() > 24);
            }
            return Err(UiError::Capacity);
        }
        proof {
            assert(views_of(parts@)[i as int] == parts@[i as int]@);
            assert(word_list_contents(words) =~= views_of(parts@).take(i as int + 1));
        }
        i = i + 1;
    }
    proof {
        assert(views_of(parts@).take(i as int) =~= views_of(parts@));
        lemma_split_words_len(choices@);
    }
    let mut prompt: String = "Select word ".to_owned();
    prompt.append(dec_u16(checked_index as u16 + 1).as_str());
    prompt.append(" of ");
    prompt.append(dec_u16(count as u16).as_str());
    prompt.append(":");
    proof {
        assert(prompt@ =~= spec_confirm_word_prompt(checked_index, count));
    }
    if (checked_index as usize) >= parts.len() {
        return Err(UiError::TypeError);
    }
    let mut page = ConfirmWordPage::new(prompt, words);
    page.start_at(checked_index);
    Ok(page)
}

/// One numbered line per word of the backup text: `k` lines for the first
/// `k` words.
pub open spec fn spec_share_lines(words: Seq<Seq<char>>, k: int) -> Seq<char>
    decreases k,
{
    if k <= 0 {
        Seq::empty()
    } else {
        spec_share_lines(words, k - 1) + spec_dec(k as nat) + ". "@ + words[k - 1] + "\n\n\n"@
    }
}

/// The whole backup text: header, one numbered line per word, and the
/// closing acknowledgement.
pub open spec fn spec_share_words_text(words: Seq<Seq<char>>) -> Seq<char> {
    "Write down these "@ + spec_dec(words.len() as nat) + " words:\n\n"@ + spec_share_lines(
        words,
        words.len() as int,
    ) + "I wrote down all "@ + spec_dec(words.len() as nat) + " words in order."@
}

/// Build the backup-seed screen: a framed, paginated text that lists the
/// comma-delimited words, numbered, between the two instruction lines. The
/// text lives in a fixed 500-byte buffer; a configuration that overflows it
/// is rejected whole.
pub fn show_share_words(share_words: &str) -> (r: Result<
    Frame<ButtonPage<Paragraphs>>,
    UiError,
>)
    ensures
        r is Ok <==> (spec_split_words(share_words@).len() <= 500 && vstd::utf8::encode_utf8(
            spec_share_words_text(spec_split_words(share_words@)),
        ).len() <= 500),
        r is Err ==> r->Err_0 == UiError::Capacity,
        r is Ok ==> ({
            let frame = r->Ok_0;
            frame.inv() && frame.spec_title() == "Recovery seed"@
                && frame.spec_content().spec_content().spec_items() == seq![
                (Font::Bold, spec_share_words_text(spec_split_words(share_words@))),
            ]
        }),
{
    let parts = split_words(share_words);
    if parts.len() > 500 {
        return Err(UiError::Capacity);
    }
    let count = parts.len();
    let mut text: String = "Write down these ".to_owned();
    text.append(dec_u16(count as u16).as_str());
    text.append(" words:\n\n");
    let ghost head = "Write down these "@ + spec_dec(count as nat) + " words:\n\n"@;
    proof {
        assert(text@ =~= head + spec_share_lines(views_of(parts@), 0));
    }
    let mut i: usize = 0;
    while i < parts.len()
        invariant
            i <= parts@.len(),
            parts@.len() <= 500,
            count == parts@.len(),
            views_of(parts@) == spec_split_words(share_words@),
            head == "Write down these "@ + spec_dec(count as nat) + " words:\n\n"@,
            text@ == head + spec_share_lines(views_of(parts@), i as int),
        decreases parts@.len() - i,
    {
        text.append(dec_u16((i as u16) + 1).as_str());
        text.append(". ");
        text.append(parts[i].as_str());
        text.append("\n\n\n");
        i = i + 1;
        proof {
            assert(views_of(parts@)[i as int - 1] == parts@[i as int - 1]@);
            assert(text@ =~= head + (spec_share_lines(views_of(parts@), i as int - 1) + spec_dec(
                i as nat,
            ) + ". "@ + views_of(parts@)[i as int - 1] + "\n\n\n"@));
        }
    }
    text.append("I wrote down all ");
    text.append(dec_u16(count as u16).as_str());
    text.append(" words in order.");
    proof {
        assert(text@ =~= spec_share_words_text(views_of(parts@)));
    }
    let text_str = text.as_str();
    let text_bytes = text_str.as_bytes();
    proof {
        assert(text_bytes@ == vstd::utf8::encode_utf8(
            spec_share_words_text(spec_split_words(share_words@)),
        ));
    }
    if text_bytes.len() > 500 {
        return Err(UiError::Capacity);
    }
    let paragraphs = Paragraphs::new().add(Font::Bold, text);
    let page = ButtonPage::new(paragraphs, theme::bg());
    proof {
        reveal_strlit("Recovery seed");
    }
    let frame = Frame::new("Recovery seed".to_owned(), page);
    proof {
        assert(frame.spec_content().spec_content().spec_items() =~= seq![
            (Font::Bold, spec_share_words_text(spec_split_words(share_words@))),
        ]);
    }
    Ok(frame)
}

/// The template of the action-confirmation screen, chosen from whether an
/// action line and a description line are present and whether their order
/// is reversed.
pub open spec fn spec_confirm_action_format(
    has_action: bool,
    has_description: bool,
    reverse: bool,
) -> Seq<char> {
    if has_action && has_description && !reverse {
        "{bold}{action}\n\r{normal}{description}"@
    } else if has_action && has_description && reverse {
        "{normal}{description}\n\r{bold}{action}"@
    } else if has_action {
        "{bold}{action}"@
    } else if has_description {
        "{normal}{description}"@
    } else {
        ""@
    }
}

/// Build the action-confirmation screen: a framed, paginated template text
/// whose shape depends on which of the action and description lines are
/// present and on their order. The `verb` and `verb_cancel` labels are
/// accepted for the host's benefit; this model's navigation controls are
/// fixed.
pub fn new_confirm_action(
    title: String,
    action: Option<String>,
    description: Option<String>,
    verb: Option<String>,
    verb_cancel: Option<String>,
    reverse: bool,
) -> (r: Frame<ButtonPage<FormattedText>>)
    ensures
        r.inv(),
        r.spec_title() == title@,
        r.spec_content().spec_content().spec_format() == spec_confirm_action_format(
            action is Some,
            description is Some,
            reverse,
        ),
        r.spec_content().spec_content().spec_args() == seq![
            ("action"@, (match action {
                Some(a) => a@,
                None => ""@,
            })),
            ("description"@, (match description {
                Some(d) => d@,
                None => ""@,
            })),
        ],
{
    let format: &str = match (&action, &description, reverse) {
        (Some(_), Some(_), false) => "{bold}{action}\n\r{normal}{description}",
        (Some(_), Some(_), true) => "{normal}{description}\n\r{bold}{action}",
        (Some(_), None, _) => "{bold}{action}",
        (None, Some(_), _) => "{normal}{description}",
        _ => "",
    };
    let action_text = match &action {
        Some(a) => a.as_str(),
        None => "",
    };
    let description_text = match &description {
        Some(d) => d.as_str(),
        None => "",
    };
    let text = FormattedText::new(format.to_owned()).with("action", action_text).with(
        "description",
        description_text,
    );
    proof {
        assert(text.spec_args() =~= seq![
            ("action"@, (match action {
                Some(a) => a@,
                None => ""@,
            })),
            ("description"@, (match description {
                Some(d) => d@,
                None => ""@,
            })),
        ]);
    }
    Frame::new(title, ButtonPage::new(text, theme::bg()))
}

/// Build the text-confirmation screen: a framed, paginated pair of
/// paragraphs, the description in the normal font above the data in bold.
pub fn new_confirm_text(title: String, data: String, description: Option<String>) -> (r: Frame<
    ButtonPage<Paragraphs>,
>)
    ensures
        r.inv(),
        r.spec_title() == title@,
        r.spec_content().spec_content().spec_items() == seq![
            (Font::Normal, (match description {
                Some(d) => d@,
                None => ""@,
            })),
            (Font::Bold, data@),
        ],
{
    let description_text: String = match description {
        Some(d) => d,
        None => String::new(),
    };
    proof {
        reveal_strlit("");
        assert(""@ =~= Seq::<char>::empty());
    }
    let paragraphs = Paragraphs::new().add(Font::Normal, description_text).add(Font::Bold, data);
    proof {
        assert(paragraphs.spec_items() =~= seq![
            (Font::Normal, (match description {
                Some(d) => d@,
                None => ""@,
            })),
            (Font::Bold, data@),
        ]);
    }
    Frame::new(title, ButtonPage::new(paragraphs, theme::bg()))
}

/// Build the PIN-request screen, filling the documented defaults: cancel is
/// allowed unless the host says otherwise, and the keypad order is not
/// shuffled unless asked.
pub fn request_pin(
    prompt: String,
    subprompt: String,
    allow_cancel: Option<bool>,
    shuffle: Option<bool>,
) -> (r: PinPage)
    ensures
        r.inv(),
        r.spec_prompt() == prompt@,
        r.spec_subprompt() == subprompt@,
        r.spec_allow_cancel() == (match allow_cancel {
            Some(b) => b,
            None => true,
        }),
        r.spec_shuffle() == (match shuffle {
            Some(b) => b,
            None => false,
        }),
        r.spec_pin() == Seq::<char>::empty(),
{
    let ac = match allow_cancel {
        Some(b) => b,
        None => true,
    };
    let sh = match shuffle {
        Some(b) => b,
        None => false,
    };
    PinPage::new(prompt, subprompt, ac, sh)
}

} // verus!
