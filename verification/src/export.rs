//! The export pipeline: vector text of a diagram, optionally restricted to a
//! transient sub-region, and the hand-over of that text to the writer.

use vstd::prelude::*;
use std::path::PathBuf;
use crate::diagram::{ClipPathInput, Diagram, Viewport};
use crate::error::{CommandError, ErrorKind};
use crate::messages::{
    ERROR_EVENT,
    GENERIC_ERROR,
    INVALID_SCALE,
    LOAD_FIRST,
    OK_EVENT,
    XML_SUCCESS,
    XML_WRITE_FAILED,
    with_detail,
};
use crate::notify::Notification;
use crate::paths::{WriteRequest, path_with_extension, with_extension};
use crate::raster::{raster_dimensions, raster_size, usable_scale};
use crate::system::ParsedSystem;
use crate::state::State;
use crate::sync::{LockLedger, Resource, ascending_acquisitions_are_admitted, guarded, guarded_mut};

verus! {

/// The form in which a diagram leaves the application.
#[derive(Debug, Clone, Copy, PartialEq, Eq, Structural)]
pub enum RenderMode {
    SVG,
    PNG,
}

impl RenderMode {
    /// Name of the file filter offered for this form.
    pub fn filter_name(&self) -> (name: &'static str)
        ensures
            *self == RenderMode::PNG ==> name@ == "Portable Network Graphics (PNG)"@,
            *self == RenderMode::SVG ==> name@ == "Scalable Vector Graphics (SVG)"@,
    {
        match self {
            RenderMode::PNG => "Portable Network Graphics (PNG)",
            RenderMode::SVG => "Scalable Vector Graphics (SVG)",
        }
    }

    /// The file extension of this form.
    pub open spec fn extension_text(self) -> Seq<char> {
        match self {
            RenderMode::PNG => "png"@,
            RenderMode::SVG => "svg"@,
        }
    }

    /// File extension every export of this form is given.
    pub fn extension(&self) -> (extension: &'static str)
        ensures
            extension@ == self.extension_text(),
    {
        match self {
            RenderMode::PNG => "png",
            RenderMode::SVG => "svg",
        }
    }

    /// Text reported once an export of this form has been written.
    pub fn success_message(&self) -> (message: &'static str)
        ensures
            *self == RenderMode::PNG ==> message@ == "Successfully exported PNG"@,
            *self == RenderMode::SVG ==> message@ == "Successfully exported SVG"@,
    {
        match self {
            RenderMode::PNG => "Successfully exported PNG",
            RenderMode::SVG => "Successfully exported SVG",
        }
    }
}

/// What the serializer made of the framed diagram, as the pipeline reports it.
pub open spec fn serialized_as<G, F: Fn(&Diagram<G>) -> Result<String, String>>(
    serialize: F,
    framed: Diagram<G>,
    text: Result<String, CommandError>,
) -> bool {
    match text {
        Ok(content) => call_ensures(serialize, (&framed,), Ok(content)),
        Err(error) => error.kind == ErrorKind::SerializationError && call_ensures(
            serialize,
            (&framed,),
            Err(error.message),
        ),
    }
}

/// What `export_vector` owes: `before` and `after` are the diagram before
/// and after it.
pub open spec fn vector_exported<G, F: Fn(&Diagram<G>) -> Result<String, String>>(
    serialize: F,
    before: Diagram<G>,
    clip: Option<ClipPathInput>,
    after: Diagram<G>,
    text: Result<String, CommandError>,
) -> bool {
    &&& after == before
    &&& serialized_as(serialize, before.framed(clip), text)
}

/// The serializer makes the same of the same diagram every time.
pub open spec fn repeatable<G, F: Fn(&Diagram<G>) -> Result<String, String>>(serialize: F) -> bool {
    forall|framed: Diagram<G>, first: Result<String, String>, second: Result<String, String>|
        #![trigger
            call_ensures(serialize, (&framed,), first),
            call_ensures(serialize, (&framed,), second)
        ]
        call_ensures(serialize, (&framed,), first) && call_ensures(serialize, (&framed,), second)
            ==> first == second
}

/// An export restricted to a clip region leaves no trace: whether it
/// succeeds or fails, an export without a clip that follows it yields what
/// it would have yielded had the clipped export never taken place.
pub proof fn clipped_export_leaves_no_trace<G, F: Fn(&Diagram<G>) -> Result<String, String>>(
    serialize: F,
    start: Diagram<G>,
    clip: ClipPathInput,
    between: Diagram<G>,
    clipped: Result<String, CommandError>,
    end: Diagram<G>,
    following: Result<String, CommandError>,
    undisturbed_end: Diagram<G>,
    undisturbed: Result<String, CommandError>,
)
    requires
        repeatable(serialize),
        vector_exported(serialize, start, Some(clip), between, clipped),
        vector_exported(serialize, between, None, end, following),
        vector_exported(serialize, start, None, undisturbed_end, undisturbed),
    ensures
        end == start,
        following == undisturbed,
{
    let framed = start.framed(None);
    match (following, undisturbed) {
        (Ok(a), Ok(b)) => {
            assert(call_ensures(serialize, (&framed,), Ok(a)));
            assert(call_ensures(serialize, (&framed,), Ok(b)));
        },
        (Ok(a), Err(b)) => {
            assert(call_ensures(serialize, (&framed,), Ok(a)));
            assert(call_ensures(serialize, (&framed,), Err(b.message)));
        },
        (Err(a), Ok(b)) => {
            assert(call_ensures(serialize, (&framed,), Err(a.message)));
            assert(call_ensures(serialize, (&framed,), Ok(b)));
        },
        (Err(a), Err(b)) => {
            assert(call_ensures(serialize, (&framed,), Err(a.message)));
            assert(call_ensures(serialize, (&framed,), Err(b.message)));
            assert(Err::<String, String>(a.message) == Err::<String, String>(b.message));
        },
    }
}

/// Serializes `diagram` to vector text. With a clip region the diagram is
/// framed by the region's rectangle and carries the clip outline while the
/// serializer runs; whatever the serializer returns, the diagram is handed
/// back exactly as it was received.
pub fn export_vector<G, F: Fn(&Diagram<G>) -> Result<String, String>>(
    diagram: &mut Diagram<G>,
    clip: Option<ClipPathInput>,
    serialize: F,
) -> (text: Result<String, CommandError>)
    requires
        forall|framed: &Diagram<G>| call_requires(serialize, (framed,)),
    ensures
        vector_exported(serialize, *old(diagram), clip, *final(diagram), text),
{
    let outcome = match clip {
        Some(clip) => {
            let viewport = diagram.viewport.swap(clip.x, clip.y, clip.width, clip.height);
            let outline = diagram.clip_path.take();
            diagram.add_freeform_clip_path(clip.clip_path);
            let outcome = serialize(&*diagram);
            diagram.viewport.restore_from(&viewport);
            diagram.clip_path = outline;
            outcome
        },
        None => serialize(&*diagram),
    };
    match outcome {
        Ok(content) => Ok(content),
        Err(reason) => Err(CommandError::new(ErrorKind::SerializationError, reason)),
    }
}

/// Everything the writer needs once the locks are released: the serialized
/// diagram, a handle on the font resource, the form asked for and, for a
/// raster export, the scale and the pixel dimensions of the image.
#[derive(Debug)]
pub struct ExportJob<F> {
    pub font_database: F,
    pub svg_string: String,
    pub render_mode: RenderMode,
    pub scale_bits: u32,
    pub pixels: Option<(u32, u32)>,
}

/// The pixel dimensions that an export of `region` in the form
/// `render_mode` carries: those of the raster image, and none for vector
/// text.
pub open spec fn job_pixels(
    region: Viewport,
    render_mode: RenderMode,
    scale_bits: u32,
    pixels: Option<(u32, u32)>,
) -> bool {
    match render_mode {
        RenderMode::SVG => pixels is None,
        RenderMode::PNG => match (raster_size(region, scale_bits), pixels) {
            (Some(size), Some(pixels)) => pixels.0 == size.0 && pixels.1 == size.1,
            _ => false,
        },
    }
}

/// What `prepare_export` owes for a stored diagram slot.
pub open spec fn export_prepared<G, F: Clone, SF: Fn(&Diagram<G>) -> Result<String, String>>(
    diagram: Option<Diagram<G>>,
    font_database: F,
    clip_path: Option<ClipPathInput>,
    render_mode: RenderMode,
    scale_bits: u32,
    serialize: SF,
    job: Result<ExportJob<F>, CommandError>,
) -> bool {
    match diagram {
        None => job matches Err(error) && error.kind == ErrorKind::NotLoaded && error.message@
            == LOAD_FIRST@,
        Some(stored) => if render_mode == RenderMode::PNG && raster_size(
            stored.framed(clip_path).viewport,
            scale_bits,
        ) is None {
            job matches Err(error) && error.kind == ErrorKind::RasterError && error.message@
                == INVALID_SCALE@
        } else {
            match job {
                Ok(job) => {
                    &&& call_ensures(serialize, (&stored.framed(clip_path),), Ok(job.svg_string))
                    &&& cloned(font_database, job.font_database)
                    &&& job.render_mode == render_mode
                    &&& job.scale_bits == scale_bits
                    &&& job_pixels(
                        stored.framed(clip_path).viewport,
                        render_mode,
                        scale_bits,
                        job.pixels,
                    )
                },
                Err(error) => {
                    &&& error.kind == ErrorKind::SerializationError
                    &&& call_ensures(
                        serialize,
                        (&stored.framed(clip_path),),
                        Err(error.message),
                    )
                },
            }
        },
    }
}

/// Prepares an export of the stored diagram while its lock and the font
/// lock are held. The region exported is the clip region where one is
/// given and the diagram's viewport otherwise.
///
/// Fails when no diagram is stored; when a raster export is asked for and
/// the image cannot be produced, because the scale is not positive and
/// finite, the region has no extent or the image would be too large; and
/// when the serializer fails. A raster export that cannot be produced is
/// turned down before anything is serialized. The slot is left as it was in
/// every case.
pub fn prepare_export<G, F: Clone, SF: Fn(&Diagram<G>) -> Result<String, String>>(
    diagram: &mut Option<Diagram<G>>,
    font_database: &F,
    clip_path: Option<ClipPathInput>,
    render_mode: RenderMode,
    scale_bits: u32,
    serialize: SF,
) -> (job: Result<ExportJob<F>, CommandError>)
    requires
        forall|framed: &Diagram<G>| call_requires(serialize, (framed,)),
    ensures
        *final(diagram) == *old(diagram),
        export_prepared(
            *old(diagram),
            *font_database,
            clip_path,
            render_mode,
            scale_bits,
            serialize,
            job,
        ),
{
    match diagram {
        None => Err(CommandError::fixed(ErrorKind::NotLoaded, LOAD_FIRST)),
        Some(stored) => {
            let region = match &clip_path {
                Some(clip) => Viewport::new(clip.x, clip.y, clip.width, clip.height),
                None => stored.viewport,
            };
            let pixels = match render_mode {
                RenderMode::PNG => match raster_dimensions(&region, scale_bits) {
                    Ok(pixels) => Some(pixels),
                    Err(error) => {
                        return Err(error);
                    },
                },
                RenderMode::SVG => None,
            };
            match export_vector(stored, clip_path, serialize) {
                Ok(svg_string) => Ok(
                    ExportJob {
                        font_database: font_database.clone(),
                        svg_string,
                        render_mode,
                        scale_bits,
                        pixels,
                    },
                ),
                Err(error) => Err(error),
            }
        },
    }
}

/// Exports the stored diagram in the form asked for, optionally restricted
/// to a clip region. Waits for the diagram lock, then for the font lock,
/// and gives both up before it returns: the job it hands back holds copies
/// of all that the writer needs.
///
/// The answer is the failure of a poisoned lock, or what `prepare_export`
/// makes of the diagram and the font resource that were stored. In
/// particular a raster export with a scale that is not positive and finite
/// always fails, and nothing is handed to the writer.
pub fn export_render<S, G, F: Clone, SF: Fn(&Diagram<G>) -> Result<String, String>>(
    state: &State<S, G, F>,
    clip_path: Option<ClipPathInput>,
    render_mode: RenderMode,
    scale_bits: u32,
    serialize: SF,
) -> (job: Result<ExportJob<F>, CommandError>)
    requires
        forall|framed: &Diagram<G>| call_requires(serialize, (framed,)),
    ensures
        render_mode == RenderMode::PNG && !usable_scale(scale_bits) ==> job is Err,
        ({
            ||| job matches Err(error) && error.kind == ErrorKind::LockContention
                && error.message@ == GENERIC_ERROR@
            ||| exists|stored: Option<Diagram<G>>, font_database: F| #[trigger]
                export_prepared(
                    stored,
                    font_database,
                    clip_path,
                    render_mode,
                    scale_bits,
                    serialize,
                    job,
                )
        }),
{
    let mut ledger = LockLedger::new();
    let mut diagram_guard = match state.lock_diagram(&mut ledger) {
        Ok(guard) => guard,
        Err(_) => {
            return Err(CommandError::fixed(ErrorKind::LockContention, GENERIC_ERROR));
        },
    };
    proof {
        ascending_acquisitions_are_admitted(
            LockLedger::new_spec(),
            Resource::Diagram,
            Resource::Font,
        );
    }
    let font_guard = match state.lock_font(&mut ledger) {
        Ok(guard) => guard,
        Err(_) => {
            return Err(CommandError::fixed(ErrorKind::LockContention, GENERIC_ERROR));
        },
    };
    prepare_export(
        guarded_mut(&mut diagram_guard),
        guarded(&font_guard),
        clip_path,
        render_mode,
        scale_bits,
        serialize,
    )
}

impl<F> ExportJob<F> {
    /// Where the export goes: the chosen path with the extension of the form
    /// asked for, or nowhere when the user chose no path.
    pub fn destination(&self, chosen: Option<PathBuf>) -> (target: Option<PathBuf>)
        ensures
            match chosen {
                Some(path) => target == Some(
                    path_with_extension(path, self.render_mode.extension_text()),
                ),
                None => target is None,
            },
    {
        match chosen {
            Some(path) => {
                proof {
                    reveal_strlit("png");
                    reveal_strlit("svg");
                }
                Some(with_extension(&path, self.render_mode.extension()))
            },
            None => None,
        }
    }

    /// What the front end is told once the writer is done. `outcome` is
    /// `None` when the window that asked for the export is gone and nothing
    /// was written.
    pub fn report(&self, outcome: Option<Result<(), String>>) -> (notification: Notification)
        ensures
            outcome is None ==> notification.reports(ERROR_EVENT@, GENERIC_ERROR@),
            outcome matches Some(Err(reason)) ==> notification.reports(ERROR_EVENT@, reason@),
            outcome matches Some(Ok(_)) && self.render_mode == RenderMode::PNG
                ==> notification.reports(OK_EVENT@, "Successfully exported PNG"@),
            outcome matches Some(Ok(_)) && self.render_mode == RenderMode::SVG
                ==> notification.reports(OK_EVENT@, "Successfully exported SVG"@),
    {
        match outcome {
            None => Notification::failure(GENERIC_ERROR.to_owned()),
            Some(Err(reason)) => Notification::failure(reason),
            Some(Ok(_)) => Notification::success(self.render_mode.success_message()),
        }
    }
}

/// What `system_text` owes.
pub open spec fn system_text_of<S, TF: Fn(&S) -> Result<String, String>>(
    system: Option<ParsedSystem<S>>,
    to_text: TF,
    answer: Result<Result<String, CommandError>, Notification>,
) -> bool {
    match system {
        None => answer matches Err(notification) && notification.reports(
            ERROR_EVENT@,
            LOAD_FIRST@,
        ),
        Some(stored) => match answer {
            Ok(Ok(text)) => call_ensures(to_text, (&stored.model,), Ok(text)),
            Ok(Err(error)) => error.kind == ErrorKind::SerializationError && call_ensures(
                to_text,
                (&stored.model,),
                Err(error.message),
            ),
            Err(_) => false,
        },
    }
}

/// Turns the stored system into its canonical text while the system lock
/// is held. Without a stored system the answer is the failure to report at
/// once. With one, the answer is whatever the serializer made of it: a
/// failure of the serializer is kept back until the user has chosen where
/// to write.
pub fn system_text<S, TF: Fn(&S) -> Result<String, String>>(
    system: &Option<ParsedSystem<S>>,
    to_text: TF,
) -> (answer: Result<Result<String, CommandError>, Notification>)
    requires
        forall|model: &S| call_requires(to_text, (model,)),
    ensures
        system_text_of(*system, to_text, answer),
{
    match system {
        None => Err(Notification::failure(LOAD_FIRST.to_owned())),
        Some(stored) => match to_text(&stored.model) {
            Ok(text) => Ok(Ok(text)),
            Err(reason) => Ok(Err(CommandError::new(ErrorKind::SerializationError, reason))),
        },
    }
}

/// Begins the export of the stored system as text. Takes the system lock if
/// it is free and gives it up before returning.
pub fn export_xml<S, G, F, TF: Fn(&S) -> Result<String, String>>(
    state: &State<S, G, F>,
    to_text: TF,
) -> (answer: Result<Result<String, CommandError>, Notification>)
    requires
        forall|model: &S| call_requires(to_text, (model,)),
    ensures
        match answer {
            Ok(Ok(text)) => exists|model: S| call_ensures(to_text, (&model,), Ok(text)),
            Ok(Err(error)) => error.kind == ErrorKind::SerializationError && exists|model: S|
                call_ensures(to_text, (&model,), Err(error.message)),
            Err(notification) => {
                ||| notification.reports(ERROR_EVENT@, LOAD_FIRST@)
                ||| notification.reports(ERROR_EVENT@, GENERIC_ERROR@)
            },
        },
{
    let mut ledger = LockLedger::new();
    match state.try_lock_system(&mut ledger) {
        Some(guard) => system_text(guarded(&guard), to_text),
        None => Err(Notification::failure(GENERIC_ERROR.to_owned())),
    }
}

/// Extension that every export of the system's text is given.
pub const XML_EXTENSION: &'static str = "xml";

/// What `xml_chosen` owes.
pub open spec fn xml_step(
    text: Result<String, CommandError>,
    chosen: Option<PathBuf>,
    step: Option<Result<WriteRequest, Notification>>,
) -> bool {
    match chosen {
        None => step is None,
        Some(path) => match text {
            Ok(text) => {
                &&& step matches Some(Ok(request))
                &&& request.contents == text
                &&& request.path == path_with_extension(path, XML_EXTENSION@)
            },
            Err(_) => step matches Some(Err(notification)) && notification.reports(
                ERROR_EVENT@,
                GENERIC_ERROR@,
            ),
        },
    }
}

/// Continues the export of the system once the user has been asked where
/// to write. Nothing happens when no path was chosen. Otherwise the text is
/// to be written to the chosen path with the extension `xml`, or, when the
/// system could not be serialized, the failure is reported now.
pub fn xml_chosen(text: Result<String, CommandError>, chosen: Option<PathBuf>) -> (step: Option<
    Result<WriteRequest, Notification>,
>)
    ensures
        xml_step(text, chosen, step),
{
    match chosen {
        None => None,
        Some(path) => match text {
            Ok(contents) => {
                proof {
                    reveal_strlit("xml");
                }
                Some(Ok(WriteRequest { path: with_extension(&path, XML_EXTENSION), contents }))
            },
            Err(_) => Some(Err(Notification::failure(GENERIC_ERROR.to_owned()))),
        },
    }
}

/// What the front end is told once the system's text has been written, or
/// could not be.
pub fn xml_written(outcome: Result<(), String>) -> (notification: Notification)
    ensures
        match outcome {
            Ok(_) => notification.reports(OK_EVENT@, XML_SUCCESS@),
            Err(reason) => notification.reports(ERROR_EVENT@, XML_WRITE_FAILED@ + reason@),
        },
{
    match outcome {
        Ok(_) => Notification::success(XML_SUCCESS),
        Err(reason) => Notification::failure(with_detail(XML_WRITE_FAILED, reason.as_str())),
    }
}

} // verus!
