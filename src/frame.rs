//! The frame pages: an image, up to a few buttons, and where a button press
//! is posted.

use vstd::prelude::*;

verus! {

#[verifier::external_type_specification]
#[verifier::external_body]
pub struct ExUrlParseError(url::ParseError);

/// What `url::Url::parse` makes of a string: the serialization of the parsed
/// URL, or `None` where the string is refused.
pub uninterp spec fn parsed_url(s: Seq<char>) -> Option<Seq<char>>;

/// Relies on url::Url::parse and the URL's Display, which writes its
/// serialization: both depend on the string alone.
#[verifier::external_body]
fn parse_url(s: &str) -> (r: Result<String, url::ParseError>)
    ensures
        r is Ok <==> parsed_url(s@) is Some,
        r matches Ok(t) ==> parsed_url(s@) == Some(t@),
{
    url::Url::parse(s).map(|u| u.to_string())
}

/// Shape of a frame's image.
#[derive(Clone, Copy, Debug, PartialEq, Eq, Structural)]
pub enum AspectRatio {
    Ratio1dot91x1,
    Ratio1x1,
}

impl Default for AspectRatio {
    fn default() -> (r: Self)
        ensures
            r == AspectRatio::Ratio1dot91x1,
    {
        AspectRatio::Ratio1dot91x1
    }
}

/// What pressing a button does.
#[derive(Clone, Copy, Debug, PartialEq, Eq, Structural)]
pub enum ButtonAction {
    Post,
    PostRedirect,
    Link,
    Mint,
    Tx,
}

impl Default for ButtonAction {
    fn default() -> (r: Self)
        ensures
            r == ButtonAction::Post,
    {
        ButtonAction::Post
    }
}

/// One button of a frame.
#[derive(Clone, Debug)]
pub struct Button {
    label: String,
    action: Option<ButtonAction>,
    target: Option<String>,
    post_url: Option<String>,
}

/// The model of a button.
pub ghost struct ButtonView {
    pub label: Seq<char>,
    pub action: Option<ButtonAction>,
    pub target: Option<Seq<char>>,
    pub post_url: Option<Seq<char>>,
}

pub open spec fn text_of(s: Option<String>) -> Option<Seq<char>> {
    match s {
        Some(t) => Some(t@),
        None => None,
    }
}

impl Default for Button {
    fn default() -> (r: Self)
        ensures
            r.view() == (ButtonView { label: Seq::empty(), action: None, target: None, post_url: None }),
    {
        Button { label: String::new(), action: None, target: None, post_url: None }
    }
}

impl Button {
    pub closed spec fn view(&self) -> ButtonView {
        ButtonView {
            label: self.label@,
            action: self.action,
            target: text_of(self.target),
            post_url: text_of(self.post_url),
        }
    }

    /// A button with a label and an action, and no target or post url of its
    /// own.
    pub fn with_action(label: &str, action: ButtonAction) -> (r: Self)
        ensures
            r.view() == (ButtonView { label: label@, action: Some(action), target: None, post_url: None }),
    {
        Button { label: label.to_owned(), action: Some(action), target: None, post_url: None }
    }

    pub fn label(&self) -> (r: &str)
        ensures
            r@ == self.view().label,
    {
        self.label.as_str()
    }

    pub fn action(&self) -> (r: Option<ButtonAction>)
        ensures
            r == self.view().action,
    {
        self.action
    }

    pub fn target(&self) -> (r: &Option<String>)
        ensures
            text_of(*r) == self.view().target,
    {
        &self.target
    }

    pub fn post_url(&self) -> (r: &Option<String>)
        ensures
            text_of(*r) == self.view().post_url,
    {
        &self.post_url
    }
}

/// A frame page as it is rendered.
pub struct FrameTemplate {
    image: String,
    buttons: Vec<Button>,
    post_url: Option<String>,
    state: Option<String>,
    version: String,
}

/// The buttons of the frames served here: `post`, then `post_redirect`.
pub open spec fn standard_buttons() -> Seq<ButtonView> {
    seq![
        ButtonView { label: "post"@, action: Some(ButtonAction::Post), target: None, post_url: None },
        ButtonView {
            label: "post_redirect"@,
            action: Some(ButtonAction::PostRedirect),
            target: None,
            post_url: None,
        },
    ]
}

/// The image that the frames served here show.
pub open spec fn frame_image_text() -> Seq<char> {
    "https://example.com"@
}

impl FrameTemplate {
    pub closed spec fn image_spec(&self) -> Seq<char> {
        self.image@
    }

    pub closed spec fn button_views(&self) -> Seq<ButtonView> {
        self.buttons@.map_values(|b: Button| b.view())
    }

    pub closed spec fn post_url_spec(&self) -> Option<Seq<char>> {
        text_of(self.post_url)
    }

    pub closed spec fn state_spec(&self) -> Option<Seq<char>> {
        text_of(self.state)
    }

    pub closed spec fn version_spec(&self) -> Seq<char> {
        self.version@
    }

    /// The standard frame around the image at the (parsed) address `image`:
    /// the two standard buttons, no post url, no state, version `vNext`.
    pub fn with_image(image: String) -> (r: Self)
        ensures
            r.image_spec() == image@,
            r.button_views() == standard_buttons(),
            r.post_url_spec() is None,
            r.state_spec() is None,
            r.version_spec() == "vNext"@,
    {
        let buttons = vec![
            Button::with_action("post", ButtonAction::Post),
            Button::with_action("post_redirect", ButtonAction::PostRedirect),
        ];
        let r = FrameTemplate { image, buttons, post_url: None, state: None, version: "vNext".to_owned() };
        assert(r.button_views() =~= standard_buttons());
        r
    }

    pub fn image(&self) -> (r: &str)
        ensures
            r@ == self.image_spec(),
    {
        self.image.as_str()
    }

    pub fn buttons(&self) -> (r: &Vec<Button>)
        ensures
            r@.map_values(|b: Button| b.view()) == self.button_views(),
    {
        &self.buttons
    }

    pub fn post_url(&self) -> (r: &Option<String>)
        ensures
            text_of(*r) == self.post_url_spec(),
    {
        &self.post_url
    }

    pub fn state(&self) -> (r: &Option<String>)
        ensures
            text_of(*r) == self.state_spec(),
    {
        &self.state
    }

    pub fn version(&self) -> (r: &str)
        ensures
            r@ == self.version_spec(),
    {
        self.version.as_str()
    }
}

/// The frame served on the first request. Fails only where the image address
/// does not parse.
pub fn initial_frame_handler() -> (r: Result<FrameTemplate, url::ParseError>)
    ensures
        r is Ok <==> parsed_url(frame_image_text()) is Some,
        r matches Ok(f) ==> Some(f.image_spec()) == parsed_url(frame_image_text())
            && f.button_views() == standard_buttons() && f.post_url_spec() is None
            && f.state_spec() is None && f.version_spec() == "vNext"@,
{
    let image = parse_url("https://example.com");
    match image {
        Ok(u) => Ok(FrameTemplate::with_image(u)),
        Err(e) => Err(e),
    }
}

/// The frame served in answer to a button press. Fails only where the image
/// address does not parse.
pub fn frame_post_handler() -> (r: Result<FrameTemplate, url::ParseError>)
    ensures
        r is Ok <==> parsed_url(frame_image_text()) is Some,
        r matches Ok(f) ==> Some(f.image_spec()) == parsed_url(frame_image_text())
            && f.button_views() == standard_buttons() && f.post_url_spec() is None
            && f.state_spec() is None && f.version_spec() == "vNext"@,
{
    let image = parse_url("https://example.com");
    match image {
        Ok(u) => Ok(FrameTemplate::with_image(u)),
        Err(e) => Err(e),
    }
}

} // verus!
