//! The render dispatcher: selects which enumerated files participate in a
//! render, decides File-mode against Directory-mode execution with its two
//! usage errors, and drives the engine file by file, fail-fast.

use vstd::prelude::*;
use vstd::string::StringExecFns;

use crate::engine::tera_render;
use crate::engine::tera_resolves;
use crate::globs::glob_set_matches;
use crate::template_config::ConfigView;
use crate::template_config::TemplateConfig;
use crate::template_config::TemplateOutputType;
use crate::template_config::opt_str_view;
use crate::template_rendering::single_file_render::resolve_render_context;

pub mod single_file_render;

verus! {

/// The views of a list of strings, in order.
pub open spec fn strs_view(s: Seq<String>) -> Seq<Seq<char>> {
    s.map_values(|x: String| x@)
}

/// The paths among `paths` that the configuration's inclusion set admits, in
/// input order.
pub open spec fn spec_selected(paths: Seq<Seq<char>>, patterns: Seq<Seq<char>>) -> Seq<Seq<char>>
    decreases paths,
{
    if paths.len() == 0 {
        Seq::empty()
    } else {
        let rest = spec_selected(paths.drop_first(), patterns);
        if glob_set_matches(patterns, paths[0]) {
            seq![paths[0]] + rest
        } else {
            rest
        }
    }
}

/// The invocation-level mistakes a render can hit before any file is
/// touched: the inclusion set admitted no file at all, or a File-mode
/// template admitted more than one.
#[derive(Debug, Clone, Copy, PartialEq, Eq, Structural)]
pub enum RenderSelectionError {
    NoMatchingFiles,
    TooManyMatchingFiles,
}

/// What one render invocation will do: render the one selected file to the
/// named output file, or render every selected file into the named output
/// directory.
pub enum RenderPlan {
    SingleFile { source: String, output_filename: String },
    DirectoryTree { output_directory: String, sources: Vec<String> },
}

/// Mathematical model of a render plan.
pub enum PlanView {
    SingleFile { source: Seq<char>, output_filename: Seq<char> },
    DirectoryTree { output_directory: Seq<char>, sources: Seq<Seq<char>> },
}

impl View for RenderPlan {
    type V = PlanView;

    open spec fn view(&self) -> PlanView {
        match self {
            RenderPlan::SingleFile { source, output_filename } => PlanView::SingleFile {
                source: source@,
                output_filename: output_filename@,
            },
            RenderPlan::DirectoryTree { output_directory, sources } => PlanView::DirectoryTree {
                output_directory: output_directory@,
                sources: strs_view(sources@),
            },
        }
    }
}

/// The output name a render resolves to: the caller's explicit override if
/// supplied, else the configuration's default, else the empty name.
pub open spec fn spec_resolved_output_name(
    overridden: Option<Seq<char>>,
    configured: Option<Seq<char>>,
) -> Seq<char> {
    match overridden {
        Some(s) => s,
        None => match configured {
            Some(s) => s,
            None => Seq::empty(),
        },
    }
}

/// What planning a render yields for a configuration, the selected files and
/// an optional output-name override: no selected file is one usage error;
/// more than one in File mode is the other; otherwise the mode's plan.
pub open spec fn spec_plan(c: ConfigView, selected: Seq<Seq<char>>, overridden: Option<Seq<char>>) -> Result<
    PlanView,
    RenderSelectionError,
> {
    if selected.len() == 0 {
        Err(RenderSelectionError::NoMatchingFiles)
    } else if c.output_type == TemplateOutputType::File {
        if selected.len() > 1 {
            Err(RenderSelectionError::TooManyMatchingFiles)
        } else {
            Ok(
                PlanView::SingleFile {
                    source: selected[0],
                    output_filename: spec_resolved_output_name(overridden, c.output_filename),
                },
            )
        }
    } else {
        Ok(
            PlanView::DirectoryTree {
                output_directory: spec_resolved_output_name(overridden, c.output_directory),
                sources: selected,
            },
        )
    }
}

/// The paths (relative to the template's file root) that the configuration
/// admits, in input order.
pub fn select_included_files(config: &TemplateConfig, relative_paths: &Vec<String>) -> (r: Vec<
    String,
>)
    ensures
        strs_view(r@) == spec_selected(strs_view(relative_paths@), config@.patterns),
{
    let ghost pview = strs_view(relative_paths@);
    let mut out: Vec<String> = Vec::new();
    proof {
        assert(pview.skip(0) =~= pview);
        assert(strs_view(out@) =~= Seq::<Seq<char>>::empty());
    }
    let n = relative_paths.len();
    for i in 0..n
        invariant
            n == relative_paths@.len(),
            pview == strs_view(relative_paths@),
            pview.len() == relative_paths@.len(),
            forall|j: int| 0 <= j < relative_paths@.len() ==> pview[j] == #[trigger] relative_paths@[j]@,
            spec_selected(pview, config@.patterns) == strs_view(out@) + spec_selected(
                pview.skip(i as int),
                config@.patterns,
            ),
    {
        proof {
            assert(pview.skip(i as int).drop_first() =~= pview.skip(i as int + 1));
            assert(pview.skip(i as int)[0] == pview[i as int]);
            assert(pview[i as int] == relative_paths@[i as int]@);
        }
        let ghost before = strs_view(out@);
        if config.should_include_file(relative_paths[i].as_str()) {
            out.push(relative_paths[i].clone());
            proof {
                assert(strs_view(out@) =~= before.push(pview[i as int]));
                assert((before.push(pview[i as int])) + spec_selected(
                    pview.skip(i as int + 1),
                    config@.patterns,
                ) =~= before + (seq![pview[i as int]] + spec_selected(
                    pview.skip(i as int + 1),
                    config@.patterns,
                )));
            }
        }
    }
    proof {
        assert(pview.skip(n as int) =~= Seq::<Seq<char>>::empty());
        assert(strs_view(out@) + Seq::<Seq<char>>::empty() =~= strs_view(out@));
    }
    out
}

/// Decides how a render will execute: File mode demands exactly one selected
/// file (zero and more-than-one are the two distinct usage errors);
/// Directory mode demands at least one. The output name is the caller's
/// override when supplied, else the configuration's default, else empty.
pub fn plan_render(
    config: &TemplateConfig,
    selected: Vec<String>,
    output_override: Option<String>,
) -> (r: Result<RenderPlan, RenderSelectionError>)
    ensures
        r matches Ok(p) ==> spec_plan(config@, strs_view(selected@), opt_str_view(output_override))
            == Ok::<PlanView, RenderSelectionError>(p@),
        r matches Err(e) ==> spec_plan(
            config@,
            strs_view(selected@),
            opt_str_view(output_override),
        ) == Err::<PlanView, RenderSelectionError>(e),
{
    if selected.len() == 0 {
        return Err(RenderSelectionError::NoMatchingFiles);
    }
    if config.get_output_type() == TemplateOutputType::File {
        if selected.len() > 1 {
            return Err(RenderSelectionError::TooManyMatchingFiles);
        }
        let output_filename = match output_override {
            Some(s) => s,
            None => match config.get_output_filename() {
                Some(s) => String::from_str(s),
                None => String::new(),
            },
        };
        let mut selected = selected;
        let source = selected.remove(0);
        Ok(RenderPlan::SingleFile { source, output_filename })
    } else {
        let output_directory = match output_override {
            Some(s) => s,
            None => match config.get_output_directory() {
                Some(s) => String::from_str(s),
                None => String::new(),
            },
        };
        Ok(RenderPlan::DirectoryTree { output_directory, sources: selected })
    }
}

/// Renders every named source against the same resolved bindings, fail-fast:
/// the first engine error aborts the whole render and carries the offending
/// path. On success there is one rendered text per source, in order, every
/// source's name resolved by the engine; no sources at all always succeed.
pub fn render_all_files(
    tera: &tera::Tera,
    config: &TemplateConfig,
    sources: &Vec<String>,
    context: Option<&tera::Context>,
) -> (r: Result<Vec<(String, String)>, (String, tera::Error)>)
    ensures
        r matches Ok(outs) ==> outs@.len() == sources@.len() && (forall|i: int|
            0 <= i < outs@.len() ==> (#[trigger] outs@[i].0)@ == sources@[i]@),
        r is Ok ==> (forall|i: int|
            0 <= i < sources@.len() ==> tera_resolves(*tera, (#[trigger] sources@[i])@)),
        r matches Err(e) ==> (exists|i: int|
            0 <= i < sources@.len() && (#[trigger] sources@[i])@ == e.0@),
        sources@.len() == 0 ==> r is Ok,
{
    let final_context = resolve_render_context(config, context);
    let mut outs: Vec<(String, String)> = Vec::new();
    let n = sources.len();
    for i in 0..n
        invariant
            n == sources@.len(),
            outs@.len() == i,
            forall|j: int| 0 <= j < i ==> (#[trigger] outs@[j].0)@ == sources@[j]@,
            forall|j: int| 0 <= j < i ==> tera_resolves(*tera, (#[trigger] sources@[j])@),
    {
        match tera_render(tera, sources[i].as_str(), &final_context) {
            Ok(rendered) => {
                outs.push((sources[i].clone(), rendered));
            },
            Err(e) => {
                return Err((sources[i].clone(), e));
            },
        }
    }
    Ok(outs)
}

/// File-mode defence in depth, at dispatch time: however the inclusion
/// patterns were written, a File-mode render that selects more than one file
/// is refused with the dispatch-time usage error, and one that selects none
/// with the other; planning succeeds if and only if neither holds.
pub proof fn lemma_file_mode_selection(c: ConfigView, selected: Seq<Seq<char>>, overridden: Option<Seq<char>>)
    requires
        c.output_type == TemplateOutputType::File,
    ensures
        selected.len() > 1 ==> spec_plan(c, selected, overridden) == Err::<
            PlanView,
            RenderSelectionError,
        >(RenderSelectionError::TooManyMatchingFiles),
        selected.len() == 0 ==> spec_plan(c, selected, overridden) == Err::<
            PlanView,
            RenderSelectionError,
        >(RenderSelectionError::NoMatchingFiles),
        selected.len() == 1 <==> spec_plan(c, selected, overridden) is Ok,
{
}

} // verus!
