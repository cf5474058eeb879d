//! A formatter that renders messages as plain text.

use vstd::prelude::*;
use vstd::string::StringExecFns;

use crate::errors::Error;
use crate::traits::{Format, HasSeverity, HasText, IsSeverity};

verus! {

/// What `handlebars` renders for a template over the two substitution values
/// `severity` and `text`, or `None` where rendering fails. Rendering with a
/// fresh registry depends on these three strings alone.
pub uninterp spec fn rendered(template: Seq<char>, severity: Seq<char>, text: Seq<char>) -> Option<
    Seq<char>,
>;

/// Whether `handlebars` accepts a template string; acceptance depends on the
/// template text alone.
pub uninterp spec fn template_compiles(template: Seq<char>) -> bool;

/// The rendering the default formatter produces: the severity's uppercase
/// display form in brackets, then the message text.
pub open spec fn default_rendering<S: IsSeverity>(severity: S, text: Seq<char>) -> Seq<char> {
    "["@ + severity.display_spec() + "] "@ + text
}

/// Relies on `handlebars::Handlebars::register_template_string`, which
/// returns `Err` exactly when the template text does not parse.
#[verifier::external_body]
fn hb_template_check(template: &str) -> (r: Result<(), Error>)
    ensures
        r is Ok <==> template_compiles(template@),
        r matches Err(e) ==> e == Error::InvalidTemplate,
{
    let mut registry = handlebars::Handlebars::new();
    match registry.register_template_string("plaintext", template) {
        Ok(()) => Ok(()),
        Err(_) => Err(Error::InvalidTemplate),
    }
}

/// Relies on `handlebars::Handlebars::render_template`: rendering with a
/// freshly created registry (the fixed built-in helpers, HTML escaping)
/// depends on the template text and the two substitution values alone.
#[verifier::external_body]
fn hb_render(template: &str, severity: &str, text: &str) -> (r: Result<String, Error>)
    ensures
        r matches Ok(s) ==> rendered(template@, severity@, text@) == Some(s@),
        r is Err ==> rendered(template@, severity@, text@) is None,
        r matches Err(e) ==> e == Error::RenderFailed,
{
    let mut data = std::collections::HashMap::new();
    data.insert("severity", severity.to_string());
    data.insert("text", text.to_string());
    match handlebars::Handlebars::new().render_template(template, &data) {
        Ok(s) => Ok(s),
        Err(_) => Err(Error::RenderFailed),
    }
}

/// A formatter that renders messages as plain text.
///
/// In its default form it renders `[<SEVERITY>] <text>` with the severity's
/// uppercase display form, e.g. `[INFO] hello, world`. Built from a template
/// instead, it substitutes two template variables, using the severity's
/// serialized rendering:
///
/// * `severity`: the severity of the message, e.g. `info` or `dev warning`
/// * `text`: the message text
///
/// So the template `{{severity}}: {{text}}` renders an info message with text
/// `hello, world` as `info: hello, world`.
pub struct Plaintext {
    template: Option<String>,
}

impl Plaintext {
    /// The template this formatter substitutes into, where it was built from
    /// one.
    pub closed spec fn template_view(&self) -> Option<Seq<char>> {
        match self.template {
            Some(t) => Some(t@),
            None => None,
        }
    }

    /// True of the formatter built by [`Plaintext::new_default`], and exactly
    /// of the formatters that hold no template: every formatter is in one of
    /// the two states.
    pub open spec fn is_default(&self) -> bool {
        self.template_view() is None
    }

    /// Creates a formatter using the given template.
    ///
    /// The template is compiled right away: a malformed template fails here,
    /// before any message is ever dispatched, and never at render time.
    pub fn new(template: &str) -> (r: Result<Self, Error>)
        ensures
            r matches Ok(p) ==> template_compiles(template@) && p.template_view() == Some(
                template@,
            ),
            r matches Err(e) ==> !template_compiles(template@) && e == Error::InvalidTemplate,
    {
        match hb_template_check(template) {
            Ok(()) => Ok(Plaintext { template: Some(template.to_owned()) }),
            Err(e) => Err(e),
        }
    }

    /// Creates a formatter using the default layout, which renders messages
    /// like `[INFO] hello, world`.
    pub fn new_default() -> (p: Self)
        ensures
            p.is_default(),
    {
        Plaintext { template: None }
    }
}

impl<S: IsSeverity, M: HasSeverity<S> + HasText> Format<S, M> for Plaintext {
    closed spec fn render_spec(&self, severity: S, text: Seq<char>) -> Option<Seq<char>> {
        match self.template {
            None => Some(default_rendering(severity, text)),
            Some(t) => rendered(t@, severity.name_spec(), text),
        }
    }

    fn format(&mut self, message: &M) -> (r: Result<String, Error>) {
        match &self.template {
            None => {
                let mut out = String::from_str("[");
                let label = message.severity().display_name();
                out.append(label.as_str());
                out.append("] ");
                out.append(message.text());
                proof {
                    assert(out@ =~= default_rendering(
                        message.severity_spec(),
                        message.text_spec(),
                    ));
                }
                Ok(out)
            }
            Some(template) => {
                let name = message.severity().name();
                hb_render(template.as_str(), name.as_str(), message.text())
            }
        }
    }
}

/// Default-layout law: the formatter built by `new_default` renders every
/// message as the severity's uppercase display form in brackets followed by
/// the text, and never fails.
pub proof fn lemma_default_format<S: IsSeverity, M: HasSeverity<S> + HasText>(
    formatter: Plaintext,
    severity: S,
    text: Seq<char>,
)
    requires
        formatter.is_default(),
    ensures
        <Plaintext as Format<S, M>>::render_spec(&formatter, severity, text) == Some(
            default_rendering(severity, text),
        ),
{
}

/// Template law: a formatter built from a template renders every message by
/// substituting the severity's serialized rendering and the text into that
/// template, exactly as the template engine defines the substitution.
pub proof fn lemma_template_format<S: IsSeverity, M: HasSeverity<S> + HasText>(
    formatter: Plaintext,
    severity: S,
    text: Seq<char>,
)
    requires
        formatter.template_view() is Some,
    ensures
        <Plaintext as Format<S, M>>::render_spec(&formatter, severity, text) == rendered(
            formatter.template_view()->0,
            severity.name_spec(),
            text,
        ),
{
}

} // verus!
