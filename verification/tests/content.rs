use enkel::content_loader::{ContentLoader, LoadError};
use enkel::device::{
    BindGroupHandle, BindGroupLayoutHandle, BufferHandle, DeviceHandle, QueueHandle, TextureHandle,
};
use enkel::model::assimp_loader::{AssimpModelLoader, KnownLoader};
use enkel::model::import::{ImportAction, ImportPhase, ModelImport};
use enkel::model::scene::PostProcess;
use enkel::model::{Material, Mesh, Model, ModelLoader};
use enkel::renderer::{DrawCall, DrawList, Renderer};

const DEVICE: DeviceHandle = DeviceHandle { id: 11 };
const QUEUE: QueueHandle = QueueHandle { id: 12 };
const LAYOUT: BindGroupLayoutHandle = BindGroupLayoutHandle { id: 13 };

struct ByExtension {
    extension: &'static str,
    step: PostProcess,
}

impl ModelLoader for ByExtension {
    fn load(
        &self,
        device: DeviceHandle,
        queue: QueueHandle,
        layout: BindGroupLayoutHandle,
        path: &str,
    ) -> ModelImport {
        ModelImport::new(path, vec![self.step], device, queue, layout)
    }

    fn can_handle_extension(&self, path: &str) -> bool {
        path.ends_with(self.extension)
    }
}

fn requested_scene(import: &ModelImport) -> (String, Vec<PostProcess>) {
    match import.request() {
        ImportAction::ReadScene { path, post_process } => (path, post_process),
        other => panic!("unexpected request {:?}", other),
    }
}

#[test]
fn missing_file_does_not_exist() {
    let loaders = vec![KnownLoader::Assimp(AssimpModelLoader::new())];
    let content = ContentLoader::new("/content".to_string(), &loaders, DEVICE, QUEUE, LAYOUT);
    assert!(matches!(content.load_model("missing.fmt", false), Err(LoadError::FileDoesNotExist)));
}

#[test]
fn missing_file_does_not_exist_even_without_loaders() {
    let loaders: Vec<KnownLoader> = vec![];
    let content = ContentLoader::new("/content".to_string(), &loaders, DEVICE, QUEUE, LAYOUT);
    assert!(matches!(content.load_model("missing.fmt", false), Err(LoadError::FileDoesNotExist)));
}

#[test]
fn file_that_no_loader_takes_has_unknown_format() {
    let loaders: Vec<KnownLoader> = vec![];
    let content = ContentLoader::new("/content".to_string(), &loaders, DEVICE, QUEUE, LAYOUT);
    assert!(matches!(content.load_model("apple.obj", true), Err(LoadError::UnknownFileFormat)));

    let loaders = vec![
        ByExtension { extension: ".obj", step: PostProcess::Triangulate },
        ByExtension { extension: ".fbx", step: PostProcess::FindInstances },
    ];
    let content = ContentLoader::new("/content".to_string(), &loaders, DEVICE, QUEUE, LAYOUT);
    assert!(matches!(content.load_model("apple.gltf", true), Err(LoadError::UnknownFileFormat)));
    assert_eq!(content.select_loader("apple.gltf"), None);
}

#[test]
fn first_loader_that_takes_the_file_wins() {
    let loaders = vec![
        ByExtension { extension: ".fbx", step: PostProcess::FindInstances },
        ByExtension { extension: ".obj", step: PostProcess::Triangulate },
        ByExtension { extension: "", step: PostProcess::SortByPrimitiveType },
        ByExtension { extension: ".obj", step: PostProcess::GenerateUVCoords },
    ];
    let content = ContentLoader::new("/content".to_string(), &loaders, DEVICE, QUEUE, LAYOUT);
    assert_eq!(content.select_loader("/content/apple.obj"), Some(1));
    assert_eq!(content.select_loader("/content/apple.fbx"), Some(0));
    assert_eq!(content.select_loader("/content/apple.gltf"), Some(2));
    let import = content.load_model("apple.obj", true).unwrap();
    assert_eq!(requested_scene(&import), ("/content/apple.obj".to_string(), vec![PostProcess::Triangulate]));
    let import = content.load_model("apple.gltf", true).unwrap();
    assert_eq!(
        requested_scene(&import),
        ("/content/apple.gltf".to_string(), vec![PostProcess::SortByPrimitiveType])
    );
}

#[test]
fn paths_are_resolved_against_the_base_path() {
    let loaders = vec![KnownLoader::Assimp(AssimpModelLoader::new())];
    let content = ContentLoader::new("/home/game/res".to_string(), &loaders, DEVICE, QUEUE, LAYOUT);
    assert_eq!(content.resolve("apple/apple.obj"), "/home/game/res/apple/apple.obj");
    assert_eq!(content.resolve("/abs/apple.obj"), "/abs/apple.obj");
    let import = content.load_model("apple/apple.obj", true).unwrap();
    assert_eq!(import.phase(), ImportPhase::ReadingScene);
    let (path, steps) = requested_scene(&import);
    assert_eq!(path, "/home/game/res/apple/apple.obj");
    assert_eq!(steps, AssimpModelLoader::new().post_process());
}

#[test]
fn load_error_messages() {
    assert_eq!(LoadError::FileDoesNotExist.message(), "File does not exist");
    assert_eq!(LoadError::UnknownFileFormat.message(), "Unknown file format");
    assert_eq!(LoadError::UnableToReadFile.message(), "Unable to read file");
    assert_eq!(
        LoadError::OtherError("no folder".to_string()).message(),
        "Another error occurred loading the file: no folder"
    );
}

fn mesh(name: &str, id: u64, num_elements: u32, material: usize) -> Mesh {
    Mesh::new(name.to_string(), BufferHandle { id }, BufferHandle { id: id + 1 }, num_elements, material)
}

fn material(id: u64) -> Material {
    Material::new(format!("material {}", id), TextureHandle { id }, BindGroupHandle { id: id + 1 })
}

#[test]
fn model_is_well_formed_when_materials_exist() {
    let model = Model::new(vec![mesh("a", 1, 3, 0), mesh("b", 3, 6, 1)], vec![material(10), material(20)]);
    assert!(model.is_well_formed());
    let model = Model::new(vec![mesh("a", 1, 3, 0), mesh("b", 3, 6, 2)], vec![material(10), material(20)]);
    assert!(!model.is_well_formed());
    let model = Model::new(vec![], vec![]);
    assert!(model.is_well_formed());
    let model = Model::new(vec![mesh("a", 1, 3, 0)], vec![]);
    assert!(!model.is_well_formed());
}

#[test]
fn draw_mesh_draws_one_instance() {
    let mut list = DrawList::new();
    list.draw_mesh(&mesh("a", 1, 3, 0), &material(10));
    assert_eq!(
        list.calls(),
        &vec![DrawCall {
            vertex_buffer: BufferHandle { id: 1 },
            index_buffer: BufferHandle { id: 2 },
            bind_group: BindGroupHandle { id: 11 },
            num_elements: 3,
            first_instance: 0,
            end_instance: 1,
        }]
    );
}

#[test]
fn draw_model_draws_each_mesh_with_its_material() {
    let model = Model::new(
        vec![mesh("a", 1, 3, 1), mesh("b", 3, 6, 0), mesh("c", 5, 9, 1)],
        vec![material(10), material(20)],
    );
    let mut list = DrawList::new();
    list.draw_model_instanced(&model, 2..7);
    let groups: Vec<u64> = list.calls().iter().map(|call| call.bind_group.id).collect();
    assert_eq!(groups, vec![21, 11, 21]);
    let buffers: Vec<u64> = list.calls().iter().map(|call| call.vertex_buffer.id).collect();
    assert_eq!(buffers, vec![1, 3, 5]);
    let counts: Vec<u32> = list.calls().iter().map(|call| call.num_elements).collect();
    assert_eq!(counts, vec![3, 6, 9]);
    for call in list.calls() {
        assert_eq!((call.first_instance, call.end_instance), (2, 7));
    }
    list.draw_model(&model);
    assert_eq!(list.calls().len(), 6);
    assert_eq!((list.calls()[3].first_instance, list.calls()[3].end_instance), (0, 1));
    list.draw_mesh_instanced(&model.meshes[0], &model.materials[0], 4..5);
    assert_eq!(list.calls()[6].bind_group, BindGroupHandle { id: 11 });
    assert_eq!(list.calls()[6].first_instance, 4);
}
