//! Configuration of one template: output mode, output name, file-inclusion
//! globs and variable defaults, as pure data plus query methods.

use vstd::prelude::*;

use crate::globs::glob_set_clone;
use crate::globs::glob_set_empty;
use crate::globs::glob_set_is_match;
use crate::globs::glob_set_matches;
use crate::globs::glob_set_patterns;
use crate::engine::context_bindings;
use crate::engine::context_insert;
use crate::engine::context_new;

verus! {

/// The two output strategies a template can declare: render to exactly one
/// output file, or render every selected file into an output directory tree.
#[derive(Debug, Clone, Copy, PartialEq, Eq, Structural)]
pub enum TemplateOutputType {
    /// The template renders a single file
    File,
    /// The template renders a directory tree
    Directory,
}

/// The view of an `Option<String>` as an optional character sequence.
pub open spec fn opt_str_view(o: Option<String>) -> Option<Seq<char>> {
    match o {
        Some(s) => Some(s@),
        None => None,
    }
}

/// The view of a list of (name, value) string pairs.
pub open spec fn kv_view(pairs: Seq<(String, String)>) -> Seq<(Seq<char>, Seq<char>)> {
    pairs.map_values(|p: (String, String)| (p.0@, p.1@))
}

/// Whether some pair of the list has the given name.
pub open spec fn kv_has_key(pairs: Seq<(Seq<char>, Seq<char>)>, name: Seq<char>) -> bool
    decreases pairs,
{
    if pairs.len() == 0 {
        false
    } else {
        pairs[0].0 == name || kv_has_key(pairs.drop_first(), name)
    }
}

/// No two pairs of the list share a name.
pub open spec fn kv_keys_unique(pairs: Seq<(Seq<char>, Seq<char>)>) -> bool
    decreases pairs,
{
    if pairs.len() == 0 {
        true
    } else {
        !kv_has_key(pairs.drop_first(), pairs[0].0) && kv_keys_unique(pairs.drop_first())
    }
}

/// The value bound to the first pair with the given name, if any.
pub open spec fn kv_lookup(pairs: Seq<(Seq<char>, Seq<char>)>, name: Seq<char>) -> Option<
    Seq<char>,
>
    decreases pairs,
{
    if pairs.len() == 0 {
        None
    } else if pairs[0].0 == name {
        Some(pairs[0].1)
    } else {
        kv_lookup(pairs.drop_first(), name)
    }
}

/// The list with the first pair named `name` rebound to `value`, or with
/// (name, value) appended when no pair has that name.
pub open spec fn kv_upsert(
    pairs: Seq<(Seq<char>, Seq<char>)>,
    name: Seq<char>,
    value: Seq<char>,
) -> Seq<(Seq<char>, Seq<char>)>
    decreases pairs,
{
    if pairs.len() == 0 {
        seq![(name, value)]
    } else if pairs[0].0 == name {
        seq![(name, value)] + pairs.drop_first()
    } else {
        seq![pairs[0]] + kv_upsert(pairs.drop_first(), name, value)
    }
}

/// When the first pair named `name` stands at index `i`, looking `name` up
/// finds its value, and upserting `name` rebinds exactly that index.
proof fn lemma_kv_found(
    pairs: Seq<(Seq<char>, Seq<char>)>,
    name: Seq<char>,
    value: Seq<char>,
    i: int,
)
    requires
        0 <= i < pairs.len(),
        pairs[i].0 == name,
        forall|j: int| 0 <= j < i ==> pairs[j].0 != name,
    ensures
        kv_lookup(pairs, name) == Some(pairs[i].1),
        kv_upsert(pairs, name, value) =~= pairs.update(i, (name, value)),
    decreases i,
{
    if i == 0 {
        assert(kv_upsert(pairs, name, value) =~= pairs.update(0, (name, value)));
    } else {
        lemma_kv_found(pairs.drop_first(), name, value, i - 1);
        assert(pairs.drop_first().update(i - 1, (name, value)) =~= pairs.update(
            i,
            (name, value),
        ).drop_first());
        assert(kv_upsert(pairs, name, value) =~= pairs.update(i, (name, value)));
    }
}

/// When no pair is named `name`, looking it up finds nothing and upserting
/// appends.
proof fn lemma_kv_absent(pairs: Seq<(Seq<char>, Seq<char>)>, name: Seq<char>, value: Seq<char>)
    requires
        forall|j: int| 0 <= j < pairs.len() ==> pairs[j].0 != name,
    ensures
        kv_lookup(pairs, name) is None,
        kv_upsert(pairs, name, value) =~= pairs.push((name, value)),
    decreases pairs,
{
    if pairs.len() > 0 {
        lemma_kv_absent(pairs.drop_first(), name, value);
        assert(kv_upsert(pairs, name, value) =~= pairs.push((name, value)));
    }
}

/// The pairs of the list as a map, later pairs winning over earlier ones.
pub open spec fn kv_map(pairs: Seq<(Seq<char>, Seq<char>)>) -> Map<Seq<char>, Seq<char>>
    decreases pairs,
{
    if pairs.len() == 0 {
        Map::empty()
    } else {
        kv_map(pairs.drop_last()).insert(pairs.last().0, pairs.last().1)
    }
}

/// Mathematical model of a template configuration.
pub struct ConfigView {
    pub output_type: TemplateOutputType,
    pub output_filename: Option<Seq<char>>,
    pub output_directory: Option<Seq<char>>,
    pub patterns: Seq<Seq<char>>,
    pub variables: Seq<(Seq<char>, Seq<char>)>,
}

impl ConfigView {
    /// The output name of the mode not in force is never populated, and
    /// variable names are unique.
    pub open spec fn wf(self) -> bool {
        &&& self.output_type == TemplateOutputType::File ==> self.output_directory is None
        &&& self.output_type == TemplateOutputType::Directory ==> self.output_filename is None
        &&& kv_keys_unique(self.variables)
    }
}

/// Contains the configuration for a particular template.
#[derive(Debug)]
pub struct TemplateConfig {
    /// The glob matching patterns for files that should be part of the
    /// rendered output.
    included_file_patterns: globset::GlobSet,
    /// Variable names with their default values, in insertion order, names
    /// unique.
    variables: Vec<(String, String)>,
    /// What this template outputs when it renders: a file, or a directory
    /// tree.
    output_type: TemplateOutputType,
    /// The filename to render this template to, if the output type is
    /// [TemplateOutputType::File], otherwise None.
    output_filename: Option<String>,
    /// The directory to render this template to, if the output type is
    /// [TemplateOutputType::Directory], otherwise None.
    output_directory: Option<String>,
}

impl View for TemplateConfig {
    type V = ConfigView;

    closed spec fn view(&self) -> ConfigView {
        ConfigView {
            output_type: self.output_type,
            output_filename: opt_str_view(self.output_filename),
            output_directory: opt_str_view(self.output_directory),
            patterns: glob_set_patterns(self.included_file_patterns),
            variables: kv_view(self.variables@),
        }
    }
}

impl Clone for TemplateConfig {
    /// The clone answers every query as the original does.
    fn clone(&self) -> (r: Self)
        ensures
            r@ == self@,
    {
        let r = TemplateConfig {
            included_file_patterns: glob_set_clone(&self.included_file_patterns),
            variables: self.get_variable_items(),
            output_type: self.output_type,
            output_filename: match &self.output_filename {
                Some(s) => Some(s.clone()),
                None => None,
            },
            output_directory: match &self.output_directory {
                Some(s) => Some(s.clone()),
                None => None,
            },
        };
        r
    }
}

/// What `set_output_type` leaves behind: on an actual mode change, the old
/// mode's output name is wiped.
pub open spec fn spec_set_output_type(c: ConfigView, output_type: TemplateOutputType) -> ConfigView {
    if c.output_type == output_type {
        c
    } else if c.output_type == TemplateOutputType::File {
        ConfigView { output_type, output_filename: None, ..c }
    } else {
        ConfigView { output_type, output_directory: None, ..c }
    }
}

impl TemplateConfig {
    /// Creates a new, empty template configuration.
    pub fn new() -> (r: Self)
        ensures
            r@ == (ConfigView {
                output_type: TemplateOutputType::File,
                output_filename: None,
                output_directory: None,
                patterns: Seq::<Seq<char>>::empty(),
                variables: Seq::<(Seq<char>, Seq<char>)>::empty(),
            }),
            r@.wf(),
    {
        let r = Self {
            included_file_patterns: glob_set_empty(),
            variables: Vec::new(),
            output_type: TemplateOutputType::File,
            output_filename: None,
            output_directory: None,
        };
        proof {
            assert(kv_view(r.variables@) =~= Seq::<(Seq<char>, Seq<char>)>::empty());
        }
        r
    }

    /// Replaces the set of matching patterns for files that this template
    /// will render.
    pub fn update_included_file_patterns(&mut self, globset: globset::GlobSet)
        ensures
            final(self)@ == (ConfigView { patterns: glob_set_patterns(globset), ..old(self)@ }),
    {
        self.included_file_patterns = globset;
    }

    /// Returns whether the given file (a path relative to the template's file
    /// root) should be rendered by this template.
    pub fn should_include_file(&self, path: &str) -> (r: bool)
        ensures
            r == glob_set_matches(self@.patterns, path@),
    {
        glob_set_is_match(&self.included_file_patterns, path)
    }

    /// Returns clones of all the (name, default) variable pairs.
    pub fn get_variable_items(&self) -> (r: Vec<(String, String)>)
        ensures
            kv_view(r@) == self@.variables,
    {
        let mut out: Vec<(String, String)> = Vec::new();
        let n = self.variables.len();
        for i in 0..n
            invariant
                n == self.variables.len(),
                out@.len() == i,
                kv_view(out@) =~= kv_view(self.variables@).take(i as int),
        {
            let pair = (self.variables[i].0.clone(), self.variables[i].1.clone());
            out.push(pair);
        }
        proof {
            assert(kv_view(self.variables@).take(n as int) =~= kv_view(self.variables@));
        }
        out
    }

    /// Adds or updates a variable to have a particular default value, which
    /// will be used for rendering if the invoker doesn't override it at
    /// render time.
    ///
    /// Returns the previous default value if one was set, None otherwise.
    pub fn add_variable(&mut self, variable_name: String, default: String) -> (r: Option<String>)
        ensures
            final(self)@ == (ConfigView {
                variables: kv_upsert(old(self)@.variables, variable_name@, default@),
                ..old(self)@
            }),
            opt_str_view(r) == kv_lookup(old(self)@.variables, variable_name@),
    {
        let ghost orig = kv_view(self.variables@);
        let n = self.variables.len();
        for i in 0..n
            invariant
                n == self.variables.len(),
                orig == kv_view(self.variables@),
                self@ == old(self)@,
                forall|j: int| 0 <= j < i ==> kv_view(self.variables@)[j].0 != variable_name@,
        {
            if self.variables[i].0 == variable_name {
                let prior = self.variables[i].1.clone();
                self.variables[i].1 = default;
                proof {
                    lemma_kv_found(orig, variable_name@, default@, i as int);
                    assert(kv_view(self.variables@) =~= orig.update(
                        i as int,
                        (variable_name@, default@),
                    ));
                }
                return Some(prior);
            }
        }
        proof {
            lemma_kv_absent(orig, variable_name@, default@);
        }
        self.variables.push((variable_name, default));
        proof {
            assert(kv_view(self.variables@) =~= orig.push((variable_name@, default@)));
        }
        None
    }

    /// Updates the output type of the template. If the type is actually
    /// changed, this will also wipe the associated output name (filename or
    /// directory).
    pub fn set_output_type(&mut self, output_type: TemplateOutputType)
        ensures
            final(self)@ == spec_set_output_type(old(self)@, output_type),
    {
        match (self.output_type, output_type) {
            (TemplateOutputType::File, TemplateOutputType::File)
            | (TemplateOutputType::Directory, TemplateOutputType::Directory) => {
            },
            (TemplateOutputType::File, _) => {
                self.output_type = output_type;
                self.output_filename = None;
            },
            (TemplateOutputType::Directory, _) => {
                self.output_type = output_type;
                self.output_directory = None;
            },
        }
    }

    pub fn get_output_type(&self) -> (r: TemplateOutputType)
        ensures
            r == self@.output_type,
    {
        self.output_type
    }

    /// Sets the default output name for a File output template. Does nothing
    /// if the output type is not [TemplateOutputType::File].
    pub fn set_output_filename(&mut self, filename: String)
        ensures
            old(self)@.output_type == TemplateOutputType::File ==> final(self)@ == (ConfigView {
                output_filename: Some(filename@),
                ..old(self)@
            }),
            old(self)@.output_type != TemplateOutputType::File ==> final(self)@ == old(self)@,
    {
        if self.output_type == TemplateOutputType::File {
            self.output_filename = Some(filename);
        }
    }

    pub fn get_output_filename(&self) -> (r: Option<&str>)
        ensures
            match r {
                Some(s) => self@.output_filename == Some(s@),
                None => self@.output_filename is None,
            },
    {
        match &self.output_filename {
            Some(s) => Some(s.as_str()),
            None => None,
        }
    }

    /// Sets the default output directory name for a Directory output
    /// template. Does nothing if the output type is not
    /// [TemplateOutputType::Directory].
    pub fn set_output_directory(&mut self, directory: String)
        ensures
            old(self)@.output_type == TemplateOutputType::Directory ==> final(self)@ == (ConfigView {
                output_directory: Some(directory@),
                ..old(self)@
            }),
            old(self)@.output_type != TemplateOutputType::Directory ==> final(self)@ == old(
                self,
            )@,
    {
        if self.output_type == TemplateOutputType::Directory {
            self.output_directory = Some(directory);
        }
    }

    pub fn get_output_directory(&self) -> (r: Option<&str>)
        ensures
            match r {
                Some(s) => self@.output_directory == Some(s@),
                None => self@.output_directory is None,
            },
    {
        match &self.output_directory {
            Some(s) => Some(s.as_str()),
            None => None,
        }
    }

    /// Every configured variable bound to its default value: the baseline
    /// render context before any override is applied.
    pub fn get_render_context(&self) -> (r: tera::Context)
        ensures
            context_bindings(r) == kv_map(self@.variables),
    {
        let mut context = context_new();
        let n = self.variables.len();
        for i in 0..n
            invariant
                n == self.variables.len(),
                context_bindings(context) == kv_map(kv_view(self.variables@).take(i as int)),
        {
            proof {
                assert(kv_view(self.variables@).take(i + 1).drop_last() =~= kv_view(
                    self.variables@,
                ).take(i as int));
            }
            context_insert(&mut context, self.variables[i].0.as_str(), self.variables[i].1.as_str());
        }
        proof {
            assert(kv_view(self.variables@).take(n as int) =~= kv_view(self.variables@));
        }
        context
    }
}

} // verus!
