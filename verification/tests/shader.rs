use engine::common::Id;
use engine::error::{ApiResult, EngineError, ShaderError};
use engine::instance::Version;
use engine::resource_manager::ResourceManager;
use engine::shader::{
    split_at_dots, LoadOutcome, OptimizationLevel, Shader, ShaderKind, ShaderManager, ShaderRequest,
    ShaderStage,
};

fn pieces(text: &str) -> Vec<String> {
    split_at_dots(text).into_iter().map(|piece| piece.into_iter().collect()).collect()
}

#[test]
fn identity_is_the_same_for_the_same_path() {
    assert_eq!(Id::new("shaders/triangle.vert.glsl"), Id::new("shaders/triangle.vert.glsl"));
    let owned = String::from("shaders/") + "triangle.vert.glsl";
    assert_eq!(Id::new(&owned), Id::new("shaders/triangle.vert.glsl"));
    assert_eq!(Id::new(""), Id::new(""));
}

#[test]
fn identity_tells_paths_apart() {
    assert_ne!(Id::new("shaders/triangle.vert.glsl"), Id::new("shaders/triangle.frag.glsl"));
    assert_ne!(Id::new("a"), Id::new("b"));
    assert_ne!(Id::new("a"), Id::new(""));
}

#[test]
fn identity_is_the_keyed_hash_of_the_path() {
    let state = ahash::RandomState::with_seeds(1, 2, 3, 4);
    assert_eq!(Id::new("shaders/sky.frag.glsl").hash, state.hash_one("shaders/sky.frag.glsl"));
    assert_eq!(Id::new("").hash, state.hash_one(""));
    let other = ahash::RandomState::with_seeds(4, 3, 2, 1);
    assert_ne!(Id::new("shaders/sky.frag.glsl").hash, other.hash_one("shaders/sky.frag.glsl"));
}

#[test]
fn path_is_cut_at_its_dots() {
    assert_eq!(pieces("name.vert.glsl"), vec!["name", "vert", "glsl"]);
    assert_eq!(pieces("name"), vec!["name"]);
    assert_eq!(pieces(""), vec![""]);
    assert_eq!(pieces("."), vec!["", ""]);
    assert_eq!(pieces("a..b"), vec!["a", "", "b"]);
    assert_eq!(pieces("./shaders/x.frag.glsl"), vec!["", "/shaders/x", "frag", "glsl"]);
    assert_eq!(pieces("x."), vec!["x", ""]);
}

#[test]
fn vertex_shader_path() {
    assert_eq!(ShaderManager::parse_kind("name.vert.glsl"), Some(ShaderKind::Vertex));
    let request = ShaderManager::new().request_shader("name.vert.glsl").unwrap();
    assert_eq!(request.kind, ShaderKind::Vertex);
    assert_eq!(request.stage, ShaderStage::Vertex);
    assert_eq!(request.id, Id::new("name.vert.glsl"));
}

#[test]
fn fragment_shader_path() {
    assert_eq!(ShaderManager::parse_kind("name.frag.glsl"), Some(ShaderKind::Fragment));
    let request = ShaderManager::new().request_shader("name.frag.glsl").unwrap();
    assert_eq!(
        request,
        ShaderRequest {
            id: Id::new("name.frag.glsl"),
            kind: ShaderKind::Fragment,
            stage: ShaderStage::Fragment
        }
    );
}

#[test]
fn unknown_stage_suffix_is_invalid() {
    assert_eq!(ShaderManager::parse_kind("name.xyz.glsl"), None);
    assert_eq!(
        ShaderManager::new().request_shader("name.xyz.glsl"),
        Err(EngineError::ShaderError(ShaderError::InvalidKind))
    );
    let mut manager = ShaderManager::new();
    assert_eq!(
        manager.load_shader("name.xyz.glsl", LoadOutcome::ModuleCreated(1)),
        Err(EngineError::ShaderError(ShaderError::InvalidKind))
    );
    assert_eq!(manager.len(), 0);
}

#[test]
fn path_with_fewer_than_three_pieces_is_invalid() {
    for path in ["", "name", "name.glsl", "vert.glsl", ".vert", "vert."] {
        assert_eq!(ShaderManager::parse_kind(path), None);
        assert_eq!(
            ShaderManager::new().request_shader(path),
            Err(EngineError::ShaderError(ShaderError::InvalidKind))
        );
    }
}

#[test]
fn kind_is_the_piece_before_the_extension() {
    assert_eq!(ShaderManager::parse_kind("./shaders/sky.frag.glsl"), Some(ShaderKind::Fragment));
    assert_eq!(ShaderManager::parse_kind("assets.v2/sky.comp.glsl"), Some(ShaderKind::Compute));
    assert_eq!(ShaderManager::parse_kind("vert.name.glsl"), None);
    assert_eq!(ShaderManager::parse_kind("name.vert.frag.glsl"), Some(ShaderKind::Fragment));
    assert_eq!(ShaderManager::parse_kind("name.vert."), Some(ShaderKind::Vertex));
    assert_eq!(ShaderManager::parse_kind("name..glsl"), None);
    assert_eq!(ShaderManager::parse_kind("name.VERT.glsl"), None);
    assert_eq!(ShaderManager::parse_kind("name.verts.glsl"), None);
    assert_eq!(ShaderManager::parse_kind("name.ver.glsl"), None);
}

#[test]
fn every_stage_suffix_has_its_kind() {
    assert_eq!(ShaderManager::map_shader_kind_from_str("vert"), Some(ShaderKind::Vertex));
    assert_eq!(ShaderManager::map_shader_kind_from_str("frag"), Some(ShaderKind::Fragment));
    assert_eq!(ShaderManager::map_shader_kind_from_str("comp"), Some(ShaderKind::Compute));
    assert_eq!(ShaderManager::map_shader_kind_from_str("geom"), Some(ShaderKind::Geometry));
    assert_eq!(ShaderManager::map_shader_kind_from_str("tesc"), Some(ShaderKind::TessControl));
    assert_eq!(ShaderManager::map_shader_kind_from_str("tese"), Some(ShaderKind::TessEvaluation));
    assert_eq!(ShaderManager::map_shader_kind_from_str("glsl"), None);
    assert_eq!(ShaderManager::map_shader_kind_from_str(""), None);
    assert_eq!(ShaderManager::map_shader_kind_from_str("Vert"), None);
}

#[test]
fn every_kind_has_its_stage() {
    assert_eq!(ShaderManager::map_shader_stage_from_kind(ShaderKind::Vertex), ShaderStage::Vertex);
    assert_eq!(ShaderManager::map_shader_stage_from_kind(ShaderKind::Fragment), ShaderStage::Fragment);
    assert_eq!(ShaderManager::map_shader_stage_from_kind(ShaderKind::Compute), ShaderStage::Compute);
    assert_eq!(ShaderManager::map_shader_stage_from_kind(ShaderKind::Geometry), ShaderStage::Geometry);
    assert_eq!(
        ShaderManager::map_shader_stage_from_kind(ShaderKind::TessControl),
        ShaderStage::TessellationControl
    );
    assert_eq!(
        ShaderManager::map_shader_stage_from_kind(ShaderKind::TessEvaluation),
        ShaderStage::TessellationEvaluation
    );
}

#[test]
fn compile_settings_are_fixed() {
    let settings = ShaderManager::compile_settings();
    assert_eq!(settings.target_api, Version { major: 1, minor: 3, patch: 0 });
    assert_eq!(settings.optimization, OptimizationLevel::Performance);
    assert_eq!(ShaderManager::DEFAULT_ENTRY_POINT, "main");
}

#[test]
fn loading_a_path_twice_is_a_duplicate() {
    let mut manager = ShaderManager::new();
    assert_eq!(manager.load_shader("a.vert.glsl", LoadOutcome::ModuleCreated(7)), Ok(()));
    assert_eq!(
        manager.load_shader("a.vert.glsl", LoadOutcome::ModuleCreated(8)),
        Err(EngineError::ShaderError(ShaderError::Duplicate))
    );
    assert_eq!(
        manager.request_shader("a.vert.glsl"),
        Err(EngineError::ShaderError(ShaderError::Duplicate))
    );
    assert_eq!(manager.len(), 1);
    assert_eq!(
        manager.get(0),
        Some(Shader { id: Id::new("a.vert.glsl"), module: 7, stage: ShaderStage::Vertex })
    );
    assert_eq!(manager.get(1), None);
}

#[test]
fn a_path_can_be_loaded_again_after_it_was_unloaded() {
    let mut manager = ShaderManager::new();
    assert_eq!(manager.load_shader("a.vert.glsl", LoadOutcome::ModuleCreated(7)), Ok(()));
    assert_eq!(manager.unload_shader(Id::new("a.vert.glsl")), Some(7));
    assert!(!manager.is_loaded(Id::new("a.vert.glsl")));
    assert_eq!(manager.load_shader("a.vert.glsl", LoadOutcome::ModuleCreated(9)), Ok(()));
    assert!(manager.is_loaded(Id::new("a.vert.glsl")));
    assert_eq!(manager.get(0).unwrap().module, 9);
}

#[test]
fn duplicate_is_reported_before_anything_else() {
    let mut manager = ShaderManager::new();
    assert_eq!(manager.load_shader("a.frag.glsl", LoadOutcome::ModuleCreated(1)), Ok(()));
    assert_eq!(
        manager.load_shader("a.frag.glsl", LoadOutcome::ReadFailed("gone".to_string())),
        Err(EngineError::ShaderError(ShaderError::Duplicate))
    );
}

#[test]
fn failures_of_the_work_are_passed_on() {
    let mut manager = ShaderManager::new();
    assert_eq!(
        manager.load_shader("a.frag.glsl", LoadOutcome::ReadFailed("No such file".to_string())),
        Err(EngineError::ShaderError(ShaderError::Io("No such file".to_string())))
    );
    assert_eq!(
        manager.load_shader("a.frag.glsl", LoadOutcome::CompileFailed("1:1 error".to_string())),
        Err(EngineError::ShaderError(ShaderError::CompileFailed("1:1 error".to_string())))
    );
    assert_eq!(
        manager.load_shader("a.frag.glsl", LoadOutcome::ModuleFailed(ApiResult { code: -2 })),
        Err(EngineError::VulkanApiError(ApiResult { code: -2 }))
    );
    assert_eq!(manager.len(), 0);
    assert!(!manager.is_loaded(Id::new("a.frag.glsl")));
    assert_eq!(manager.load_shader("a.frag.glsl", LoadOutcome::ModuleCreated(3)), Ok(()));
    assert_eq!(manager.len(), 1);
}

#[test]
fn unloading_keeps_the_others_in_order() {
    let mut manager = ShaderManager::new();
    for (path, module) in [("a.vert.glsl", 1), ("b.frag.glsl", 2), ("c.comp.glsl", 3)] {
        assert_eq!(manager.load_shader(path, LoadOutcome::ModuleCreated(module)), Ok(()));
    }
    assert_eq!(manager.unload_shader(Id::new("b.frag.glsl")), Some(2));
    assert_eq!(manager.unload_shader(Id::new("b.frag.glsl")), None);
    assert_eq!(manager.unload_shader(Id::new("never.vert.glsl")), None);
    assert_eq!(manager.len(), 2);
    assert_eq!(manager.get(0).unwrap().module, 1);
    assert_eq!(manager.get(1).unwrap().module, 3);
    assert_eq!(manager.get(1).unwrap().stage, ShaderStage::Compute);
}

#[test]
fn unloading_everything_hands_back_every_module() {
    let mut manager = ShaderManager::new();
    for (path, module) in [("a.vert.glsl", 11), ("b.frag.glsl", 22), ("c.geom.glsl", 33)] {
        assert_eq!(manager.load_shader(path, LoadOutcome::ModuleCreated(module)), Ok(()));
    }
    assert_eq!(manager.unload_shaders(), vec![11, 22, 33]);
    assert_eq!(manager.len(), 0);
    assert_eq!(manager.unload_shaders(), Vec::<u64>::new());
    assert_eq!(manager.load_shader("a.vert.glsl", LoadOutcome::ModuleCreated(44)), Ok(()));
}

#[test]
fn registry_turns_duplicates_away() {
    let mut registry = ResourceManager::new();
    let first = Shader::new(Id::new("a.vert.glsl"), 1, ShaderStage::Vertex);
    let second = Shader::new(Id::new("b.frag.glsl"), 2, ShaderStage::Fragment);
    let again = Shader::new(Id::new("a.vert.glsl"), 3, ShaderStage::Vertex);
    assert_eq!(registry.register_shader(first), Ok(()));
    assert_eq!(registry.register_shader(second), Ok(()));
    assert_eq!(registry.register_shader(again), Err(ShaderError::Duplicate));
    assert_eq!(registry.len(), 2);
    assert_eq!(registry.find(first.id), Some(0));
    assert_eq!(registry.find(second.id), Some(1));
    assert_eq!(registry.find(Id::new("c.comp.glsl")), None);
    assert_eq!(registry.get(0), Some(first));
    assert_eq!(registry.get(2), None);
}

#[test]
fn registry_deletes_by_identity() {
    let mut registry = ResourceManager::new();
    let first = Shader::new(Id::new("a.vert.glsl"), 1, ShaderStage::Vertex);
    let second = Shader::new(Id::new("b.frag.glsl"), 2, ShaderStage::Fragment);
    assert_eq!(registry.delete_shader(first.id), None);
    assert_eq!(registry.register_shader(first), Ok(()));
    assert_eq!(registry.register_shader(second), Ok(()));
    assert_eq!(registry.delete_shader(first.id), Some(first));
    assert_eq!(registry.delete_shader(first.id), None);
    assert_eq!(registry.len(), 1);
    assert_eq!(registry.get(0), Some(second));
    assert_eq!(registry.delete_shaders(), vec![second]);
    assert_eq!(registry.len(), 0);
    assert_eq!(registry.delete_shaders(), Vec::<Shader>::new());
}
