//! Translation of event descriptions by a remote service: what to ask, and
//! what to make of the answer.

use vstd::prelude::*;
use vstd::string::StringExecFns;

verus! {

/// A request to the translation service: where to post, the form to post, and
/// the value of the authorization header.
#[derive(Debug, PartialEq, Eq)]
pub struct TranslationRequest {
    pub url: String,
    /// The form, as pairs of a parameter's name and its value.
    pub form: Vec<(String, String)>,
    pub authorization: String,
}

/// What a [`TranslationRequest`] holds, as mathematical values.
pub struct TranslationRequestView {
    pub url: Seq<char>,
    pub form: Seq<(Seq<char>, Seq<char>)>,
    pub authorization: Seq<char>,
}

impl View for TranslationRequest {
    type V = TranslationRequestView;

    open spec fn view(&self) -> TranslationRequestView {
        TranslationRequestView {
            url: self.url@,
            form: Seq::new(self.form@.len(), |i: int| (self.form@[i].0@, self.form@[i].1@)),
            authorization: self.authorization@,
        }
    }
}

/// The request that asks for `text` in French on behalf of the holder of
/// `api_key`.
pub open spec fn request_for(text: Seq<char>, api_key: Seq<char>) -> TranslationRequestView {
    TranslationRequestView {
        url: "https://api-free.deepl.com/v2/translate"@,
        form: seq![("text"@, text), ("target_lang"@, "FR"@)],
        authorization: "DeepL-Auth-Key "@ + api_key,
    }
}

/// The texts of a list of strings, in the same order.
pub open spec fn texts(strings: Seq<String>) -> Seq<Seq<char>> {
    Seq::new(strings.len(), |i: int| strings[i]@)
}

/// The text to show for `written`, given the answer of the translation
/// service: its first translation, or `written` itself where the call failed
/// (`None`) or brought no translation.
pub open spec fn text_to_show(
    written: Seq<char>,
    reply: Option<Seq<Seq<char>>>,
) -> Seq<char> {
    match reply {
        Some(translations) => if translations.len() > 0 {
            translations[0]
        } else {
            written
        },
        None => written,
    }
}

/// Builds the request that asks the translation service for `text` in French.
pub fn translation_request(text: &str, api_key: &str) -> (request: TranslationRequest)
    ensures
        request@ == request_for(text@, api_key@),
{
    let mut form: Vec<(String, String)> = Vec::new();
    form.push(("text".to_owned(), text.to_owned()));
    form.push(("target_lang".to_owned(), "FR".to_owned()));
    let mut authorization = "DeepL-Auth-Key ".to_owned();
    authorization.append(api_key);
    let request = TranslationRequest {
        url: "https://api-free.deepl.com/v2/translate".to_owned(),
        form,
        authorization,
    };
    assert(request@.form =~= request_for(text@, api_key@).form);
    request
}

/// Picks the text to show for `written` from the answer of the translation
/// service. `reply` is `None` where the call failed, whether in transport or
/// by a status other than success. A failed call is never an error here: the
/// text is shown as it was written.
pub fn translated_text(written: &str, reply: &Option<Vec<String>>) -> (text: String)
    ensures
        text@ == text_to_show(
            written@,
            match *reply {
                Some(translations) => Some(texts(translations@)),
                None => None,
            },
        ),
        *reply is None ==> text@ == written@,
{
    match reply {
        Some(translations) => {
            if translations.len() > 0 {
                translations[0].clone()
            } else {
                written.to_owned()
            }
        },
        None => written.to_owned(),
    }
}

} // verus!
