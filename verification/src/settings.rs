//! Window settings and the choices made from them when a window is built.

use vstd::prelude::*;
use vstd::string::*;
use crate::geometry::Size;

verus! {

/// A graphics API with its version.
#[derive(Clone, PartialEq, Eq, Debug)]
pub struct Api {
    /// The name of the API.
    pub api: String,
    pub major: u32,
    pub minor: u32,
}

/// The mathematical value of an [`Api`].
pub struct ApiView {
    pub api: Seq<char>,
    pub major: u32,
    pub minor: u32,
}

impl View for Api {
    type V = ApiView;

    open spec fn view(&self) -> ApiView {
        ApiView { api: self.api@, major: self.major, minor: self.minor }
    }
}

/// The settings a window is built from.
#[derive(Clone, PartialEq, Eq, Debug)]
pub struct WindowSettings {
    pub title: String,
    /// The size in whole logical pixels.
    pub size: Size,
    /// The number of samples per pixel; 0 asks for no multisampling.
    pub samples: u8,
    pub fullscreen: bool,
    pub exit_on_esc: bool,
    pub automatic_close: bool,
    pub vsync: bool,
    /// The graphics API asked for, if any.
    pub graphics_api: Option<Api>,
    pub srgb: bool,
    pub resizable: bool,
    pub decorated: bool,
    pub controllers: bool,
    pub transparent: bool,
}

/// The window asked for a graphics API other than OpenGL.
#[derive(Clone, PartialEq, Eq, Debug)]
pub struct UnsupportedGraphicsApiError {
    /// The name of the API that was asked for.
    pub found: String,
    /// The names of the APIs that are supported.
    pub expected: Vec<String>,
}

/// The name of the one supported graphics API.
pub open spec fn opengl_name() -> Seq<char> {
    "OpenGL"@
}

/// The graphics API that settings ask for: the one they name, or else
/// OpenGL 3.2.
pub open spec fn requested_api(graphics_api: Option<ApiView>) -> ApiView {
    match graphics_api {
        Some(api) => api,
        None => ApiView { api: opengl_name(), major: 3, minor: 2 },
    }
}

/// The value of a graphics API that may be absent.
pub open spec fn api_value(api: Option<Api>) -> Option<ApiView> {
    match api {
        Some(a) => Some(a@),
        None => None,
    }
}

/// Finds the graphics API to use. Any API but OpenGL is refused, with the
/// name that was found and the one name that is expected.
pub fn graphics_api_from_settings(settings: &WindowSettings) -> (r: Result<
    Api,
    UnsupportedGraphicsApiError,
>)
    ensures
        match r {
            Ok(api) => {
                &&& requested_api(api_value(settings.graphics_api)).api == opengl_name()
                &&& api@ == requested_api(api_value(settings.graphics_api))
            },
            Err(e) => {
                &&& requested_api(api_value(settings.graphics_api)).api != opengl_name()
                &&& e.found@ == requested_api(api_value(settings.graphics_api)).api
                &&& e.expected@.len() == 1
                &&& e.expected@[0]@ == opengl_name()
            },
        },
{
    let opengl = "OpenGL".to_owned();
    let api = match &settings.graphics_api {
        Some(api) => Api { api: api.api.clone(), major: api.major, minor: api.minor },
        None => Api { api: "OpenGL".to_owned(), major: 3, minor: 2 },
    };
    if api.api != opengl {
        let mut expected: Vec<String> = Vec::new();
        expected.push(opengl);
        return Err(UnsupportedGraphicsApiError { found: api.api, expected });
    }
    Ok(api)
}

/// A context API to ask the graphics driver for.
#[derive(Clone, Copy, PartialEq, Eq, Structural, Debug)]
pub enum ContextApi {
    /// OpenGL of the given major and minor version.
    OpenGl(u8, u8),
    /// OpenGL ES of any version.
    Gles,
}

/// The context to ask for after `failures` requests have failed: first
/// the version asked for, then OpenGL ES, then OpenGL 2.1. After three
/// failures there is nothing left to try.
pub open spec fn context_attempt_spec(api: ApiView, failures: u8) -> Option<ContextApi> {
    if failures == 0 {
        Some(ContextApi::OpenGl(api.major as u8, api.minor as u8))
    } else if failures == 1 {
        Some(ContextApi::Gles)
    } else if failures == 2 {
        Some(ContextApi::OpenGl(2, 1))
    } else {
        None
    }
}

/// Chooses the context to ask for after `failures` requests have failed,
/// or `None` when the window cannot be built.
pub fn context_attempt(api: &Api, failures: u8) -> (attempt: Option<ContextApi>)
    ensures
        attempt == context_attempt_spec(api@, failures),
{
    match failures {
        0 => Some(
            ContextApi::OpenGl(
                #[verifier::truncate] (api.major as u8),
                #[verifier::truncate] (api.minor as u8),
            ),
        ),
        1 => Some(ContextApi::Gles),
        2 => Some(ContextApi::OpenGl(2, 1)),
        _ => None,
    }
}

/// What is asked of a framebuffer configuration.
#[derive(Clone, Copy, PartialEq, Eq, Structural, Debug)]
pub struct ConfigTemplate {
    pub transparency: bool,
    /// The number of samples per pixel, where multisampling is asked for.
    pub multisampling: Option<u8>,
}

/// Derives the configuration template from the settings: multisampling
/// is asked for only with a sample count other than 0.
pub fn config_template_from_settings(settings: &WindowSettings) -> (template: ConfigTemplate)
    ensures
        template.transparency == settings.transparent,
        template.multisampling == if settings.samples == 0 {
            None
        } else {
            Some(settings.samples)
        },
{
    let samples = settings.samples;
    ConfigTemplate {
        transparency: settings.transparent,
        multisampling: if samples == 0 {
            None
        } else {
            Some(samples)
        },
    }
}

/// The template to try where the driver offers no configuration for
/// `template`: the same without multisampling. There is none where no
/// multisampling was asked for.
pub fn config_template_fallback(template: ConfigTemplate) -> (fallback: Option<ConfigTemplate>)
    ensures
        fallback == if template.multisampling is Some {
            Some(ConfigTemplate { transparency: template.transparency, multisampling: None })
        } else {
            None
        },
{
    match template.multisampling {
        Some(_) => Some(ConfigTemplate { transparency: template.transparency, multisampling: None }),
        None => None,
    }
}

/// What is known of a framebuffer configuration that the driver offers.
#[derive(Clone, Copy, PartialEq, Eq, Structural, Debug)]
pub struct ConfigTraits {
    /// Whether it supports transparency, where the driver can tell.
    pub supports_transparency: Option<bool>,
    pub num_samples: u8,
}

impl ConfigTraits {
    /// Whether the configuration is known to support transparency.
    pub open spec fn transparent(self) -> bool {
        self.supports_transparency == Some(true)
    }

    /// Whether `self` is taken in place of the configuration `held`: it
    /// supports transparency where `held` does not, or has more samples.
    pub open spec fn beats(self, held: ConfigTraits) -> bool {
        (self.transparent() && !held.transparent()) || self.num_samples > held.num_samples
    }

    /// Tests whether `self` is taken in place of `held`.
    pub fn is_better_than(&self, held: &ConfigTraits) -> (better: bool)
        ensures
            better == self.beats(*held),
    {
        let mine = match self.supports_transparency {
            Some(t) => t,
            None => false,
        };
        let theirs = match held.supports_transparency {
            Some(t) => t,
            None => false,
        };
        (mine && !theirs) || self.num_samples > held.num_samples
    }
}

/// The index of the configuration that is held after the first `n` of
/// `configs` were seen in order: the first is held to begin with, and each
/// later one is taken where it beats the one held.
pub open spec fn held_config(configs: Seq<ConfigTraits>, n: int) -> int
    recommends
        1 <= n <= configs.len(),
    decreases n,
{
    if n <= 1 {
        0
    } else {
        let held = held_config(configs, n - 1);
        if configs[n - 1].beats(configs[held]) {
            n - 1
        } else {
            held
        }
    }
}

/// The index that is held lies among the configurations seen.
pub proof fn lemma_held_in_bounds(configs: Seq<ConfigTraits>, n: int)
    requires
        1 <= n <= configs.len(),
    ensures
        0 <= held_config(configs, n) < n,
    decreases n,
{
    if n > 1 {
        lemma_held_in_bounds(configs, n - 1);
    }
}

/// Picks the framebuffer configuration to use among those offered, by its
/// index; `None` if none is offered.
pub fn pick_config(configs: &Vec<ConfigTraits>) -> (pick: Option<usize>)
    ensures
        configs@.len() == 0 ==> pick is None,
        configs@.len() > 0 ==> pick == Some(held_config(configs@, configs@.len() as int) as usize),
        pick is Some ==> pick.unwrap() < configs@.len(),
{
    if configs.len() == 0 {
        return None;
    }
    let mut held: usize = 0;
    let mut i: usize = 1;
    while i < configs.len()
        invariant
            1 <= i <= configs.len(),
            held < i,
            held == held_config(configs@, i as int),
        decreases configs.len() - i,
    {
        if configs[i].is_better_than(&configs[held]) {
            held = i;
        }
        i += 1;
    }
    Some(held)
}

} // verus!
