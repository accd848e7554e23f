//! Shaders: what a path says about the shader behind it, and which shaders
//! are loaded.

use vstd::prelude::*;
use vstd::string::*;
use crate::common::Id;
use crate::error::{ApiResult, EngineError, ShaderError};
use crate::instance::{InstanceHandle, Version};
use crate::resource_manager::{holds, ids_distinct, is_position_of, modules_of, ResourceManager};
use crate::text::chars_of;

verus! {

/// The kind of a shader, as the compiler knows it.
#[derive(Clone, Copy, Debug, PartialEq, Eq, Structural)]
pub enum ShaderKind {
    Vertex,
    Fragment,
    Compute,
    Geometry,
    TessControl,
    TessEvaluation,
}

/// The stage of the pipeline that a shader runs in.
#[derive(Clone, Copy, Debug, PartialEq, Eq, Structural)]
pub enum ShaderStage {
    Vertex,
    Fragment,
    Compute,
    Geometry,
    TessellationControl,
    TessellationEvaluation,
}

/// A loaded shader.
#[derive(Clone, Copy, Debug, PartialEq, Eq, Structural)]
pub struct Shader {
    /// The identity of the path that the shader was loaded from.
    pub id: Id,
    /// The handle of its module on the device.
    pub module: u64,
    pub stage: ShaderStage,
}

impl Shader {
    pub fn new(id: Id, module: u64, stage: ShaderStage) -> (shader: Shader)
        ensures
            shader == (Shader { id, module, stage }),
    {
        Shader { id, module, stage }
    }
}

/// The pieces of `text` between its dots. A text without a dot is one piece;
/// two dots in a row have an empty piece between them.
pub open spec fn dot_segments(text: Seq<char>) -> Seq<Seq<char>>
    decreases text.len(),
{
    if text.len() == 0 {
        seq![Seq::empty()]
    } else {
        let front = dot_segments(text.drop_last());
        if text.last() == '.' {
            front.push(Seq::empty())
        } else {
            front.drop_last().push(front.last().push(text.last()))
        }
    }
}

/// The kind that a stage suffix names.
pub open spec fn kind_named(name: Seq<char>) -> Option<ShaderKind> {
    if name == "vert"@ {
        Some(ShaderKind::Vertex)
    } else if name == "frag"@ {
        Some(ShaderKind::Fragment)
    } else if name == "comp"@ {
        Some(ShaderKind::Compute)
    } else if name == "geom"@ {
        Some(ShaderKind::Geometry)
    } else if name == "tesc"@ {
        Some(ShaderKind::TessControl)
    } else if name == "tese"@ {
        Some(ShaderKind::TessEvaluation)
    } else {
        None
    }
}

/// The kind of the shader at `path`: what the piece before the last one
/// names, in a path of at least three pieces.
pub open spec fn kind_of_path(path: Seq<char>) -> Option<ShaderKind> {
    let segments = dot_segments(path);
    if segments.len() < 3 {
        None
    } else {
        kind_named(segments[segments.len() - 2])
    }
}

/// The stage that a shader of `kind` runs in.
pub open spec fn stage_of(kind: ShaderKind) -> ShaderStage {
    match kind {
        ShaderKind::Vertex => ShaderStage::Vertex,
        ShaderKind::Fragment => ShaderStage::Fragment,
        ShaderKind::Compute => ShaderStage::Compute,
        ShaderKind::Geometry => ShaderStage::Geometry,
        ShaderKind::TessControl => ShaderStage::TessellationControl,
        ShaderKind::TessEvaluation => ShaderStage::TessellationEvaluation,
    }
}

/// `pieces` put together again, with a dot between each two.
pub open spec fn joined_with_dots(pieces: Seq<Seq<char>>) -> Seq<char>
    decreases pieces.len(),
{
    if pieces.len() == 0 {
        Seq::empty()
    } else if pieces.len() == 1 {
        pieces[0]
    } else {
        joined_with_dots(pieces.drop_last()) + seq!['.'] + pieces.last()
    }
}

/// Cutting a text at its dots loses nothing and leaves no dot: there is at
/// least one piece, no piece holds a dot, and the pieces with dots between
/// them are the text again.
pub proof fn lemma_dot_segments_partition(text: Seq<char>)
    ensures
        dot_segments(text).len() >= 1,
        forall|i: int, j: int|
            0 <= i < dot_segments(text).len() && 0 <= j < dot_segments(text)[i].len()
                ==> #[trigger] dot_segments(text)[i][j] != '.',
        joined_with_dots(dot_segments(text)) == text,
    decreases text.len(),
{
    let pieces = dot_segments(text);
    if text.len() == 0 {
        assert(joined_with_dots(pieces) =~= text);
    } else {
        let front_text = text.drop_last();
        let front = dot_segments(front_text);
        lemma_dot_segments_partition(front_text);
        if text.last() == '.' {
            assert(pieces.drop_last() == front);
            assert(pieces.last() == Seq::<char>::empty());
            assert(joined_with_dots(pieces) =~= front_text + seq!['.']);
            assert(front_text + seq!['.'] =~= text);
            assert forall|i: int, j: int|
                0 <= i < pieces.len() && 0 <= j < pieces[i].len() implies #[trigger] pieces[i][j]
                != '.' by {
                assert(pieces[i] == front[i]);
            }
        } else {
            let grown = front.last().push(text.last());
            assert(pieces.drop_last() == front.drop_last());
            assert(pieces.last() == grown);
            if front.len() == 1 {
                assert(front[0] == front_text);
                assert(joined_with_dots(pieces) =~= text);
            } else {
                assert(joined_with_dots(front) == joined_with_dots(front.drop_last()) + seq!['.']
                    + front.last());
                assert(joined_with_dots(pieces) =~= joined_with_dots(front).push(text.last()));
                assert(front_text.push(text.last()) =~= text);
            }
            assert forall|i: int, j: int|
                0 <= i < pieces.len() && 0 <= j < pieces[i].len() implies #[trigger] pieces[i][j]
                != '.' by {
                if i < pieces.len() - 1 {
                    assert(pieces[i] == front[i]);
                } else if j < front.last().len() {
                    assert(pieces[i][j] == front[i][j]);
                }
            }
        }
    }
}

/// Whether `chars` spell `word`.
fn spells(chars: &Vec<char>, word: &str) -> (same: bool)
    ensures
        same == (chars@ == word@),
{
    let length = word.unicode_len();
    if chars.len() != length {
        return false;
    }
    let mut i: usize = 0;
    while i < length
        invariant
            i <= length,
            length == word@.len(),
            chars@.len() == length,
            forall|k: int| 0 <= k < i ==> chars@[k] == word@[k],
        decreases length - i,
    {
        if chars[i] != word.get_char(i) {
            return false;
        }
        i += 1;
    }
    assert(chars@ =~= word@);
    true
}

/// The texts of `pieces`.
pub open spec fn texts_of(pieces: Seq<Vec<char>>) -> Seq<Seq<char>> {
    pieces.map_values(|piece: Vec<char>| piece@)
}

/// Cuts `text` at its dots.
pub fn split_at_dots(text: &str) -> (segments: Vec<Vec<char>>)
    ensures
        texts_of(segments@) == dot_segments(text@),
{
    let chars = chars_of(text);
    let mut done: Vec<Vec<char>> = Vec::new();
    let mut current: Vec<char> = Vec::new();
    let mut i: usize = 0;
    assert(chars@.take(0) =~= Seq::<char>::empty());
    assert(texts_of(done@).push(current@) =~= dot_segments(chars@.take(0)));
    while i < chars.len()
        invariant
            i <= chars.len(),
            texts_of(done@).push(current@) == dot_segments(chars@.take(i as int)),
        decreases chars.len() - i,
    {
        let ghost prefix = chars@.take(i as int);
        let ghost next = chars@.take(i as int + 1);
        let ghost held = texts_of(done@);
        let ghost piece = current@;
        proof {
            assert(next.drop_last() == prefix);
            assert(next.last() == chars@[i as int]);
            assert(held.push(piece).drop_last() == held);
            assert(held.push(piece).last() == piece);
        }
        if chars[i] == '.' {
            done.push(current);
            current = Vec::new();
            assert(texts_of(done@) =~= held.push(piece));
        } else {
            current.push(chars[i]);
        }
        i += 1;
    }
    assert(chars@.take(chars.len() as int) == chars@);
    let ghost held = texts_of(done@);
    let ghost piece = current@;
    done.push(current);
    assert(texts_of(done@) =~= held.push(piece));
    done
}

/// How hard the compiler works on the code it emits.
#[derive(Clone, Copy, Debug, PartialEq, Eq, Structural)]
pub enum OptimizationLevel {
    Zero,
    Size,
    Performance,
}

/// What every shader is compiled with.
#[derive(Clone, Copy, Debug, PartialEq, Eq, Structural)]
pub struct CompileSettings {
    /// The version of the programming interface that the code is compiled
    /// for: the one that the instance asks for.
    pub target_api: Version,
    pub optimization: OptimizationLevel,
}

/// A shader that is being loaded: what its path says about it.
#[derive(Clone, Copy, Debug, PartialEq, Eq, Structural)]
pub struct ShaderRequest {
    pub id: Id,
    pub kind: ShaderKind,
    pub stage: ShaderStage,
}

/// How the work on a requested shader ended: reading its source, compiling
/// it, and creating its module on the device.
#[derive(Clone, Debug, PartialEq, Eq)]
pub enum LoadOutcome {
    /// The source could not be read; the cause is attached.
    ReadFailed(String),
    /// The compiler rejected the source; its diagnostic is attached.
    CompileFailed(String),
    /// The device refused the module.
    ModuleFailed(ApiResult),
    /// The module was created; its handle is attached.
    ModuleCreated(u64),
}

/// The shaders that are loaded, in the order in which they were loaded. No
/// two of them share an identity.
#[derive(Debug)]
pub struct ShaderManager {
    registry: ResourceManager,
}

impl View for ShaderManager {
    type V = Seq<Shader>;

    closed spec fn view(&self) -> Seq<Shader> {
        self.registry@
    }
}

impl ShaderManager {
    /// The name of the function at which every shader starts.
    pub const DEFAULT_ENTRY_POINT: &'static str = "main";

    /// A manager with no shader loaded.
    pub fn new() -> (manager: ShaderManager)
        ensures
            manager@ == Seq::<Shader>::empty(),
    {
        ShaderManager { registry: ResourceManager::new() }
    }

    /// What every shader is compiled with: for the version of the programming
    /// interface that the instance asks for, and optimised for speed.
    pub fn compile_settings() -> (settings: CompileSettings)
        ensures
            settings.target_api == InstanceHandle::api_release(),
            settings.optimization == OptimizationLevel::Performance,
    {
        CompileSettings {
            target_api: Version { major: 1, minor: 3, patch: 0 },
            optimization: OptimizationLevel::Performance,
        }
    }

    /// The kind that the stage suffix `kind_name` stands for, if any.
    pub fn map_shader_kind_from_str(kind_name: &str) -> (kind: Option<ShaderKind>)
        ensures
            kind == kind_named(kind_name@),
    {
        let chars = chars_of(kind_name);
        Self::kind_spelled(&chars)
    }

    fn kind_spelled(chars: &Vec<char>) -> (kind: Option<ShaderKind>)
        ensures
            kind == kind_named(chars@),
    {
        if spells(chars, "vert") {
            Some(ShaderKind::Vertex)
        } else if spells(chars, "frag") {
            Some(ShaderKind::Fragment)
        } else if spells(chars, "comp") {
            Some(ShaderKind::Compute)
        } else if spells(chars, "geom") {
            Some(ShaderKind::Geometry)
        } else if spells(chars, "tesc") {
            Some(ShaderKind::TessControl)
        } else if spells(chars, "tese") {
            Some(ShaderKind::TessEvaluation)
        } else {
            None
        }
    }

    /// The stage of the pipeline that a shader of `kind` runs in.
    pub fn map_shader_stage_from_kind(kind: ShaderKind) -> (stage: ShaderStage)
        ensures
            stage == stage_of(kind),
    {
        match kind {
            ShaderKind::Vertex => ShaderStage::Vertex,
            ShaderKind::Fragment => ShaderStage::Fragment,
            ShaderKind::Compute => ShaderStage::Compute,
            ShaderKind::Geometry => ShaderStage::Geometry,
            ShaderKind::TessControl => ShaderStage::TessellationControl,
            ShaderKind::TessEvaluation => ShaderStage::TessellationEvaluation,
        }
    }

    /// Reads the kind of a shader off its path, which has the form of a name,
    /// a stage suffix and an extension with dots between them. A path of
    /// fewer than three pieces, or with a suffix that names no stage, has no
    /// kind.
    pub fn parse_kind(path: &str) -> (kind: Option<ShaderKind>)
        ensures
            kind == kind_of_path(path@),
    {
        let segments = split_at_dots(path);
        if segments.len() < 3 {
            return None;
        }
        let suffix = &segments[segments.len() - 2];
        assert(texts_of(segments@)[segments.len() - 2] == suffix@);
        Self::kind_spelled(suffix)
    }

    /// Whether the shader at `path` may be loaded, given the `loaded` ones: a
    /// path whose identity is loaded already is a duplicate, and a path
    /// without a kind is invalid. The first is reported before the second.
    pub open spec fn admission(loaded: Seq<Shader>, path: Seq<char>) -> Result<
        ShaderRequest,
        ShaderError,
    > {
        if holds(loaded, Id::of(path)) {
            Err(ShaderError::Duplicate)
        } else {
            match kind_of_path(path) {
                None => Err(ShaderError::InvalidKind),
                Some(kind) => Ok(ShaderRequest { id: Id::of(path), kind, stage: stage_of(kind) }),
            }
        }
    }

    /// Whether a shader with identity `id` is loaded.
    pub fn is_loaded(&self, id: Id) -> (loaded: bool)
        ensures
            loaded == holds(self@, id),
            ids_distinct(self@),
    {
        self.registry.find(id).is_some()
    }

    /// How many shaders are loaded.
    pub fn len(&self) -> (count: usize)
        ensures
            count == self@.len(),
            ids_distinct(self@),
    {
        self.registry.len()
    }

    /// The loaded shader at `index`, in the order of loading.
    pub fn get(&self, index: usize) -> (shader: Option<Shader>)
        ensures
            shader == if index < self@.len() {
                Some(self@[index as int])
            } else {
                None
            },
    {
        self.registry.get(index)
    }

    /// Decides whether the shader at `path` may be loaded, and says what is
    /// to be read, compiled and created for it.
    pub fn request_shader(&self, path: &str) -> (outcome: Result<ShaderRequest, EngineError>)
        ensures
            ids_distinct(self@),
            match Self::admission(self@, path@) {
                Ok(request) => outcome == Ok::<_, EngineError>(request),
                Err(error) => outcome == Err::<ShaderRequest, _>(EngineError::ShaderError(error)),
            },
    {
        let id = Id::new(path);
        if self.is_loaded(id) {
            return Err(EngineError::ShaderError(ShaderError::Duplicate));
        }
        match Self::parse_kind(path) {
            None => Err(EngineError::ShaderError(ShaderError::InvalidKind)),
            Some(kind) => Ok(
                ShaderRequest { id, kind, stage: Self::map_shader_stage_from_kind(kind) },
            ),
        }
    }

    /// Loads the shader at `path`, for which the work ended in `outcome`.
    ///
    /// A path that may not be loaded is turned away whatever the outcome. A
    /// failure of the work is passed on as the error it stands for. Only a
    /// created module makes the shader one of the loaded ones, as the last of
    /// them; in every other case the loaded shaders stay as they are.
    pub fn load_shader(&mut self, path: &str, outcome: LoadOutcome) -> (result: Result<
        (),
        EngineError,
    >)
        ensures
            ids_distinct(old(self)@),
            ids_distinct(final(self)@),
            match Self::admission(old(self)@, path@) {
                Err(error) => {
                    &&& result == Err::<(), _>(EngineError::ShaderError(error))
                    &&& final(self)@ == old(self)@
                },
                Ok(request) => match outcome {
                    LoadOutcome::ReadFailed(cause) => {
                        &&& result == Err::<(), _>(
                            EngineError::ShaderError(ShaderError::Io(cause)),
                        )
                        &&& final(self)@ == old(self)@
                    },
                    LoadOutcome::CompileFailed(diagnostic) => {
                        &&& result == Err::<(), _>(
                            EngineError::ShaderError(ShaderError::CompileFailed(diagnostic)),
                        )
                        &&& final(self)@ == old(self)@
                    },
                    LoadOutcome::ModuleFailed(code) => {
                        &&& result == Err::<(), _>(EngineError::VulkanApiError(code))
                        &&& final(self)@ == old(self)@
                    },
                    LoadOutcome::ModuleCreated(module) => {
                        &&& result is Ok
                        &&& final(self)@ == old(self)@.push(
                            Shader { id: request.id, module, stage: request.stage },
                        )
                    },
                },
            },
    {
        let request = match self.request_shader(path) {
            Ok(request) => request,
            Err(error) => {
                return Err(error);
            },
        };
        match outcome {
            LoadOutcome::ReadFailed(cause) => Err(EngineError::ShaderError(ShaderError::Io(cause))),
            LoadOutcome::CompileFailed(diagnostic) => Err(
                EngineError::ShaderError(ShaderError::CompileFailed(diagnostic)),
            ),
            LoadOutcome::ModuleFailed(code) => Err(EngineError::VulkanApiError(code)),
            LoadOutcome::ModuleCreated(module) => {
                let shader = Shader::new(request.id, module, request.stage);
                match self.registry.register_shader(shader) {
                    Ok(_) => Ok(()),
                    Err(error) => Err(EngineError::ShaderError(error)),
                }
            },
        }
    }

    /// Unloads the shader with identity `id` and hands back the handle of its
    /// module, which is to be destroyed. The other shaders stay loaded, in
    /// their order. Where no such shader is loaded, nothing changes.
    pub fn unload_shader(&mut self, id: Id) -> (module: Option<u64>)
        ensures
            ids_distinct(old(self)@),
            ids_distinct(final(self)@),
            !holds(final(self)@, id),
            match module {
                Some(handle) => exists|index: int|
                    {
                        &&& #[trigger] is_position_of(old(self)@, id, index)
                        &&& handle == old(self)@[index].module
                        &&& final(self)@ == old(self)@.remove(index)
                    },
                None => !holds(old(self)@, id) && final(self)@ == old(self)@,
            },
    {
        match self.registry.delete_shader(id) {
            Some(shader) => Some(shader.module),
            None => None,
        }
    }

    /// Unloads every shader and hands back the handles of their modules,
    /// which are to be destroyed, in the order in which they were loaded.
    pub fn unload_shaders(&mut self) -> (modules: Vec<u64>)
        ensures
            modules@ == modules_of(old(self)@),
            ids_distinct(old(self)@),
            final(self)@ == Seq::<Shader>::empty(),
    {
        let shaders = self.registry.delete_shaders();
        let mut modules: Vec<u64> = Vec::new();
        let mut i: usize = 0;
        while i < shaders.len()
            invariant
                i <= shaders.len(),
                modules@ == modules_of(shaders@.take(i as int)),
            decreases shaders.len() - i,
        {
            modules.push(shaders[i].module);
            assert(modules@ =~= modules_of(shaders@.take(i as int + 1)));
            i += 1;
        }
        assert(shaders@.take(shaders.len() as int) == shaders@);
        modules
    }
}

/// A path that was loaded is a duplicate for as long as its shader stays
/// loaded: after a load of `path` that put a shader with `module` among the
/// `loaded` ones, a further load of `path` is turned away.
pub proof fn lemma_loaded_path_is_duplicate(loaded: Seq<Shader>, path: Seq<char>, module: u64)
    requires
        ShaderManager::admission(loaded, path) is Ok,
    ensures
        ShaderManager::admission(
            loaded.push(
                Shader {
                    id: ShaderManager::admission(loaded, path)->Ok_0.id,
                    module,
                    stage: ShaderManager::admission(loaded, path)->Ok_0.stage,
                },
            ),
            path,
        ) == Err::<ShaderRequest, _>(ShaderError::Duplicate),
{
    let request = ShaderManager::admission(loaded, path)->Ok_0;
    let after = loaded.push(Shader { id: request.id, module, stage: request.stage });
    assert(is_position_of(after, Id::of(path), loaded.len() as int));
}

/// A path of fewer than three pieces, or whose piece before the last names no
/// stage, is turned away as invalid, unless it is turned away as a duplicate
/// before that.
pub proof fn lemma_path_without_kind_is_invalid(loaded: Seq<Shader>, path: Seq<char>)
    requires
        dot_segments(path).len() < 3 || kind_named(
            dot_segments(path)[dot_segments(path).len() - 2],
        ) is None,
    ensures
        ShaderManager::admission(loaded, path) == Err::<ShaderRequest, _>(
            if holds(loaded, Id::of(path)) {
                ShaderError::Duplicate
            } else {
                ShaderError::InvalidKind
            },
        ),
{
}

/// A path is turned away as a duplicate exactly while a shader with its
/// identity is loaded; unloading that shader lets the path be loaded again.
pub proof fn lemma_duplicate_iff_loaded(loaded: Seq<Shader>, path: Seq<char>)
    ensures
        ShaderManager::admission(loaded, path) == Err::<ShaderRequest, _>(ShaderError::Duplicate)
            <==> holds(loaded, Id::of(path)),
{
}

} // verus!
