//! The import of one model, step by step: what has to be read or uploaded
//! next, and what each answer of the importer or the device leads to.

use crate::content_loader::{LoadError, LoadErrorView};
use crate::device::{
    BindGroupHandle, BindGroupLayoutHandle, BufferHandle, DeviceHandle, QueueHandle, TextureHandle,
};
use crate::model::assimp_loader::{
    diffuse_texture_path, mesh_data, mesh_defect, AssimpModelLoader, MeshData, MeshDataView,
    MATERIAL_NAME,
};
use crate::model::scene::{
    ImportedMaterial, ImportedMesh, ImportedMeshView, ImportedScene, ImportedSceneView, PostProcess,
};
use crate::model::{Material, MaterialView, Mesh, MeshView, Model, ModelView};
use crate::paths::{parent, parent_of};
use vstd::prelude::*;

verus! {

/// What is wrong with a source file that lies in no folder.
pub const NO_PARENT_FOLDER: &'static str = "Could not find parent folder for file.";

/// What a slot of a bind group holds.
#[derive(Clone, Copy, Debug, PartialEq, Eq, Structural)]
pub enum BindingResource {
    TextureView,
    Sampler,
}

/// One slot of a bind group.
#[derive(Clone, Copy, Debug, PartialEq, Eq, Structural)]
pub struct BindGroupEntry {
    pub binding: u32,
    pub resource: BindingResource,
}

/// The slots of the bind group of a material: the view of its texture in
/// slot 0, the sampler in slot 1.
pub open spec fn texture_bindings() -> Seq<BindGroupEntry> {
    seq![
        BindGroupEntry { binding: 0, resource: BindingResource::TextureView },
        BindGroupEntry { binding: 1, resource: BindingResource::Sampler },
    ]
}

/// How far an import has come.
#[derive(Clone, Copy, Debug, PartialEq, Eq, Structural)]
pub enum ImportPhase {
    /// The importer has been asked for the scene.
    ReadingScene,
    /// The device has been asked for the texture of the next material.
    LoadingTexture,
    /// The device has been asked for the buffers of the next mesh.
    CreatingBuffers,
    /// Every material and mesh is on the device.
    Done,
    /// The import has failed.
    Failed,
}

/// An answer to what an import asked for.
#[derive(Debug)]
pub enum ImportEvent {
    /// The importer has read the scene.
    SceneRead(ImportedScene),
    /// The importer could not read the file.
    SceneUnreadable,
    /// The texture is on the device, tied to the pipeline by a bind group.
    TextureLoaded { texture: TextureHandle, bind_group: BindGroupHandle },
    /// The texture could not be read.
    TextureUnreadable,
    /// The two buffers of the mesh are on the device.
    BuffersCreated { vertex_buffer: BufferHandle, index_buffer: BufferHandle },
}

/// What an answer holds.
pub enum ImportEventView {
    SceneRead(ImportedSceneView),
    SceneUnreadable,
    TextureLoaded { texture: TextureHandle, bind_group: BindGroupHandle },
    TextureUnreadable,
    BuffersCreated { vertex_buffer: BufferHandle, index_buffer: BufferHandle },
}

impl View for ImportEvent {
    type V = ImportEventView;

    open spec fn view(&self) -> ImportEventView {
        match self {
            ImportEvent::SceneRead(scene) => ImportEventView::SceneRead(scene@),
            ImportEvent::SceneUnreadable => ImportEventView::SceneUnreadable,
            ImportEvent::TextureLoaded { texture, bind_group } => ImportEventView::TextureLoaded {
                texture: *texture,
                bind_group: *bind_group,
            },
            ImportEvent::TextureUnreadable => ImportEventView::TextureUnreadable,
            ImportEvent::BuffersCreated { vertex_buffer, index_buffer } => ImportEventView::BuffersCreated {
                vertex_buffer: *vertex_buffer,
                index_buffer: *index_buffer,
            },
        }
    }
}

/// What an import asks for.
#[derive(Debug)]
pub enum ImportAction {
    /// Read the scene at `path` and apply the steps to it.
    ReadScene { path: String, post_process: Vec<PostProcess> },
    /// Load the texture at `path`, upload it, and tie it to the layout with
    /// a bind group of the given slots.
    LoadTexture {
        device: DeviceHandle,
        queue: QueueHandle,
        layout: BindGroupLayoutHandle,
        path: String,
        bindings: Vec<BindGroupEntry>,
    },
    /// Create the vertex buffer and the index buffer of a mesh.
    CreateBuffers { device: DeviceHandle, data: MeshData },
    /// Nothing: the import is over.
    Finished,
}

/// What a request holds.
pub enum ImportActionView {
    ReadScene { path: Seq<char>, post_process: Seq<PostProcess> },
    LoadTexture {
        device: DeviceHandle,
        queue: QueueHandle,
        layout: BindGroupLayoutHandle,
        path: Seq<char>,
        bindings: Seq<BindGroupEntry>,
    },
    CreateBuffers { device: DeviceHandle, data: MeshDataView },
    Finished,
}

impl View for ImportAction {
    type V = ImportActionView;

    open spec fn view(&self) -> ImportActionView {
        match self {
            ImportAction::ReadScene { path, post_process } => ImportActionView::ReadScene {
                path: path@,
                post_process: post_process@,
            },
            ImportAction::LoadTexture { device, queue, layout, path, bindings } => ImportActionView::LoadTexture {
                device: *device,
                queue: *queue,
                layout: *layout,
                path: path@,
                bindings: bindings@,
            },
            ImportAction::CreateBuffers { device, data } => ImportActionView::CreateBuffers {
                device: *device,
                data: data@,
            },
            ImportAction::Finished => ImportActionView::Finished,
        }
    }
}

/// The state of an import.
pub struct ImportView {
    pub path: Seq<char>,
    pub post_process: Seq<PostProcess>,
    pub device: DeviceHandle,
    pub queue: QueueHandle,
    pub layout: BindGroupLayoutHandle,
    pub phase: ImportPhase,
    /// The folder of the source file, once the scene has been read.
    pub folder: Seq<char>,
    /// The scene, once it has been read.
    pub scene: ImportedSceneView,
    /// The materials made so far, in the order of the scene.
    pub materials: Seq<MaterialView>,
    /// The meshes made so far, in the order of the scene.
    pub meshes: Seq<MeshView>,
    /// Why the import failed, if it did.
    pub error: Option<LoadErrorView>,
}

/// The mesh that an imported mesh becomes in the given buffers.
pub open spec fn uploaded_mesh(
    mesh: ImportedMeshView,
    vertex_buffer: BufferHandle,
    index_buffer: BufferHandle,
) -> MeshView {
    MeshView {
        name: mesh.name,
        vertex_buffer,
        index_buffer,
        num_elements: (3 * mesh.faces.len()) as u32,
        material: mesh.material_index as usize,
    }
}

/// Whether a model holds what a scene describes: as many materials and
/// meshes, each mesh with the material that the scene gives it, which is one
/// of the model's, and with three indices for each of its faces.
pub open spec fn imported(model: ModelView, scene: ImportedSceneView) -> bool {
    &&& model.materials.len() == scene.materials.len()
    &&& model.meshes.len() == scene.meshes.len()
    &&& forall|i: int|
        0 <= i < model.meshes.len() ==> {
            &&& (#[trigger] model.meshes[i]).material == scene.meshes[i].material_index
            &&& model.meshes[i].material < model.materials.len()
            &&& model.meshes[i].num_elements == 3 * scene.meshes[i].faces.len()
            &&& model.meshes[i].num_elements % 3 == 0
            &&& model.meshes[i].name == scene.meshes[i].name
        }
}

impl ImportView {
    /// An import that has just asked for its scene.
    pub open spec fn started(
        path: Seq<char>,
        post_process: Seq<PostProcess>,
        device: DeviceHandle,
        queue: QueueHandle,
        layout: BindGroupLayoutHandle,
    ) -> ImportView {
        ImportView {
            path,
            post_process,
            device,
            queue,
            layout,
            phase: ImportPhase::ReadingScene,
            folder: Seq::empty(),
            scene: ImportedSceneView { materials: Seq::empty(), meshes: Seq::empty() },
            materials: Seq::empty(),
            meshes: Seq::empty(),
            error: None,
        }
    }

    /// The import, failed for the given reason.
    pub open spec fn failed(self, error: LoadErrorView) -> ImportView {
        ImportView { phase: ImportPhase::Failed, error: Some(error), ..self }
    }

    /// The import, turned to what is still missing: first the materials,
    /// then the meshes, each in the order of the scene. A mesh with a defect
    /// fails the import when its turn comes.
    pub open spec fn proceed(self) -> ImportView {
        if self.materials.len() < self.scene.materials.len() {
            ImportView { phase: ImportPhase::LoadingTexture, ..self }
        } else if self.meshes.len() < self.scene.meshes.len() {
            match mesh_defect(
                self.scene.meshes[self.meshes.len() as int],
                self.scene.materials.len() as int,
            ) {
                Some(detail) => self.failed(LoadErrorView::OtherError(detail)),
                None => ImportView { phase: ImportPhase::CreatingBuffers, ..self },
            }
        } else {
            ImportView { phase: ImportPhase::Done, ..self }
        }
    }

    /// The import after an answer. An answer to something that the import is
    /// not waiting for changes nothing.
    pub open spec fn next(self, event: ImportEventView) -> ImportView {
        match (self.phase, event) {
            (ImportPhase::ReadingScene, ImportEventView::SceneUnreadable) => self.failed(
                LoadErrorView::UnableToReadFile,
            ),
            (ImportPhase::ReadingScene, ImportEventView::SceneRead(scene)) => match parent_of(
                self.path,
            ) {
                None => self.failed(LoadErrorView::OtherError(NO_PARENT_FOLDER@)),
                Some(folder) => (ImportView { folder, scene, ..self }).proceed(),
            },
            (ImportPhase::LoadingTexture, ImportEventView::TextureUnreadable) => self.failed(
                LoadErrorView::UnableToReadFile,
            ),
            (
                ImportPhase::LoadingTexture,
                ImportEventView::TextureLoaded { texture, bind_group },
            ) => (ImportView {
                materials: self.materials.push(
                    MaterialView { name: MATERIAL_NAME@, diffuse_texture: texture, bind_group },
                ),
                ..self
            }).proceed(),
            (
                ImportPhase::CreatingBuffers,
                ImportEventView::BuffersCreated { vertex_buffer, index_buffer },
            ) => (ImportView {
                meshes: self.meshes.push(
                    uploaded_mesh(
                        self.scene.meshes[self.meshes.len() as int],
                        vertex_buffer,
                        index_buffer,
                    ),
                ),
                ..self
            }).proceed(),
            _ => self,
        }
    }

    /// What the import is waiting for.
    pub open spec fn requested(self) -> ImportActionView {
        match self.phase {
            ImportPhase::ReadingScene => ImportActionView::ReadScene {
                path: self.path,
                post_process: self.post_process,
            },
            ImportPhase::LoadingTexture => ImportActionView::LoadTexture {
                device: self.device,
                queue: self.queue,
                layout: self.layout,
                path: diffuse_texture_path(
                    self.folder,
                    self.scene.materials[self.materials.len() as int],
                ),
                bindings: texture_bindings(),
            },
            ImportPhase::CreatingBuffers => ImportActionView::CreateBuffers {
                device: self.device,
                data: mesh_data(self.scene.meshes[self.meshes.len() as int]),
            },
            ImportPhase::Done => ImportActionView::Finished,
            ImportPhase::Failed => ImportActionView::Finished,
        }
    }

    /// Whether the state is one that an import can be in: what has been made
    /// so far follows the scene, materials before meshes, and the phase says
    /// what is missing.
    pub open spec fn consistent(self) -> bool {
        let material_count = self.scene.materials.len();
        let mesh_count = self.scene.meshes.len();
        &&& self.materials.len() <= material_count
        &&& self.meshes.len() <= mesh_count
        &&& self.meshes.len() > 0 ==> self.materials.len() == material_count
        &&& forall|i: int|
            0 <= i < self.meshes.len() ==> {
                &&& mesh_defect(#[trigger] self.scene.meshes[i], material_count as int).is_none()
                &&& self.meshes[i].name == self.scene.meshes[i].name
                &&& self.meshes[i].num_elements == 3 * self.scene.meshes[i].faces.len()
                &&& self.meshes[i].material == self.scene.meshes[i].material_index
            }
        &&& self.error.is_some() <==> self.phase == ImportPhase::Failed
        &&& match self.phase {
            ImportPhase::ReadingScene => material_count == 0 && mesh_count == 0,
            ImportPhase::LoadingTexture => self.materials.len() < material_count,
            ImportPhase::CreatingBuffers => {
                &&& self.materials.len() == material_count
                &&& self.meshes.len() < mesh_count
                &&& mesh_defect(
                    self.scene.meshes[self.meshes.len() as int],
                    material_count as int,
                ).is_none()
            },
            ImportPhase::Done => self.materials.len() == material_count && self.meshes.len()
                == mesh_count,
            ImportPhase::Failed => true,
        }
    }

    /// How many materials and meshes of the scene are still to be made.
    pub open spec fn remaining(self) -> int {
        (self.scene.materials.len() - self.materials.len()) + (self.scene.meshes.len()
            - self.meshes.len())
    }

    /// Whether `event` brings what the import is waiting for.
    pub open spec fn is_answered_by(self, event: ImportEventView) -> bool {
        match (self.phase, event) {
            (ImportPhase::ReadingScene, ImportEventView::SceneRead(_)) => true,
            (ImportPhase::LoadingTexture, ImportEventView::TextureLoaded { .. }) => true,
            (ImportPhase::CreatingBuffers, ImportEventView::BuffersCreated { .. }) => true,
            _ => false,
        }
    }

    /// The model that a finished import has made.
    pub open spec fn model(self) -> ModelView {
        ModelView { meshes: self.meshes, materials: self.materials }
    }
}

/// An import stays in a possible state, whatever answer it gets.
pub proof fn lemma_next_is_consistent(state: ImportView, event: ImportEventView)
    requires
        state.consistent(),
    ensures
        state.next(event).consistent(),
{
    let after = state.next(event);
    match (state.phase, event) {
        (
            ImportPhase::CreatingBuffers,
            ImportEventView::BuffersCreated { vertex_buffer, index_buffer },
        ) => {
            let k = state.meshes.len() as int;
            assert forall|i: int| 0 <= i < after.meshes.len() implies {
                &&& mesh_defect(
                    #[trigger] after.scene.meshes[i],
                    after.scene.materials.len() as int,
                ).is_none()
                &&& after.meshes[i].name == after.scene.meshes[i].name
                &&& after.meshes[i].num_elements == 3 * after.scene.meshes[i].faces.len()
                &&& after.meshes[i].material == after.scene.meshes[i].material_index
            } by {
                if i < k {
                    assert(after.meshes[i] == state.meshes[i]);
                }
            }
        },
        _ => {},
    }
}

/// Each texture and each pair of buffers that the import gets brings it one
/// step nearer to its end: one thing less is to be made, the import is done
/// exactly when nothing is left, and it fails only over a mesh with a defect.
pub proof fn lemma_answer_makes_progress(state: ImportView, event: ImportEventView)
    requires
        state.consistent(),
        state.phase == ImportPhase::LoadingTexture || state.phase == ImportPhase::CreatingBuffers,
        state.is_answered_by(event),
    ensures
        state.next(event).remaining() == state.remaining() - 1,
        state.next(event).scene == state.scene,
        (state.next(event).phase == ImportPhase::Done) == (state.next(event).remaining() == 0),
        state.next(event).phase == ImportPhase::Failed ==> {
            &&& state.next(event).meshes.len() < state.scene.meshes.len()
            &&& mesh_defect(
                state.scene.meshes[state.next(event).meshes.len() as int],
                state.scene.materials.len() as int,
            ).is_some()
        },
        state.next(event).phase != ImportPhase::ReadingScene,
{
}

/// A scene that has been read is taken over as it is, and the import turns
/// to its first material, or its first mesh, or is done at once; it fails
/// only if the file lies in no folder or the first mesh to be made has a
/// defect.
pub proof fn lemma_scene_is_taken_over(state: ImportView, scene: ImportedSceneView)
    requires
        state.consistent(),
        state.phase == ImportPhase::ReadingScene,
    ensures
        parent_of(state.path).is_some() ==> {
            &&& state.next(ImportEventView::SceneRead(scene)).scene == scene
            &&& state.next(ImportEventView::SceneRead(scene)).folder == parent_of(state.path).unwrap()
            &&& state.next(ImportEventView::SceneRead(scene)).remaining() == scene.materials.len()
                + scene.meshes.len()
            &&& (state.next(ImportEventView::SceneRead(scene)).phase == ImportPhase::Done) == (
            scene.materials.len() + scene.meshes.len() == 0)
        },
        parent_of(state.path).is_none() ==> state.next(ImportEventView::SceneRead(scene)).error
            == Some(LoadErrorView::OtherError(NO_PARENT_FOLDER@)),
{
}

/// The model of a finished import holds what the scene describes.
pub proof fn lemma_done_import_matches_scene(state: ImportView)
    requires
        state.consistent(),
        state.phase == ImportPhase::Done,
    ensures
        imported(state.model(), state.scene),
        state.model().well_formed(),
{
    assert forall|i: int| 0 <= i < state.meshes.len() implies {
        &&& (#[trigger] state.model().meshes[i]).material == state.scene.meshes[i].material_index
        &&& state.model().meshes[i].material < state.model().materials.len()
        &&& state.model().meshes[i].num_elements == 3 * state.scene.meshes[i].faces.len()
        &&& state.model().meshes[i].num_elements % 3 == 0
        &&& state.model().meshes[i].name == state.scene.meshes[i].name
    } by {
        assert(mesh_defect(state.scene.meshes[i], state.scene.materials.len() as int).is_none());
    }
}

/// The import of one model, from the request for its scene to the finished
/// model. It is driven from outside: `request` says what to do next, and
/// `advance` takes the answer.
pub struct ModelImport {
    path: String,
    post_process: Vec<PostProcess>,
    device: DeviceHandle,
    queue: QueueHandle,
    layout: BindGroupLayoutHandle,
    phase: ImportPhase,
    folder: String,
    scene_materials: Vec<ImportedMaterial>,
    scene_meshes: Vec<ImportedMesh>,
    materials: Vec<Material>,
    meshes: Vec<Mesh>,
    error: Option<LoadError>,
}

impl View for ModelImport {
    type V = ImportView;

    closed spec fn view(&self) -> ImportView {
        ImportView {
            path: self.path@,
            post_process: self.post_process@,
            device: self.device,
            queue: self.queue,
            layout: self.layout,
            phase: self.phase,
            folder: self.folder@,
            scene: ImportedSceneView {
                materials: self.scene_materials.deep_view(),
                meshes: self.scene_meshes.deep_view(),
            },
            materials: self.materials.deep_view(),
            meshes: self.meshes.deep_view(),
            error: match self.error {
                Some(error) => Some(error@),
                None => None,
            },
        }
    }
}

impl ModelImport {
    #[verifier::type_invariant]
    spec fn possible(&self) -> bool {
        self@.consistent()
    }

    /// An import of the file at `path` that has just asked for its scene.
    pub fn new(
        path: &str,
        post_process: Vec<PostProcess>,
        device: DeviceHandle,
        queue: QueueHandle,
        layout: BindGroupLayoutHandle,
    ) -> (import: Self)
        ensures
            import@ == ImportView::started(path@, post_process@, device, queue, layout),
            import@.consistent(),
    {
        let import = ModelImport {
            path: String::from_str(path),
            post_process,
            device,
            queue,
            layout,
            phase: ImportPhase::ReadingScene,
            folder: String::new(),
            scene_materials: Vec::new(),
            scene_meshes: Vec::new(),
            materials: Vec::new(),
            meshes: Vec::new(),
            error: None,
        };
        assert(import@.scene.materials =~= Seq::empty());
        assert(import@.scene.meshes =~= Seq::empty());
        assert(import@.materials =~= Seq::empty());
        assert(import@.meshes =~= Seq::empty());
        import
    }

    /// How far the import has come.
    pub fn phase(&self) -> (phase: ImportPhase)
        ensures
            phase == self@.phase,
    {
        self.phase
    }

    /// Whether the import is over, with a model or with an error.
    pub fn is_finished(&self) -> (b: bool)
        ensures
            b == (self@.phase == ImportPhase::Done || self@.phase == ImportPhase::Failed),
    {
        match self.phase {
            ImportPhase::Done => true,
            ImportPhase::Failed => true,
            _ => false,
        }
    }

    /// What the import is waiting for.
    pub fn request(&self) -> (action: ImportAction)
        ensures
            action@ == self@.requested(),
    {
        proof {
            use_type_invariant(self);
        }
        match self.phase {
            ImportPhase::ReadingScene => ImportAction::ReadScene {
                path: self.path.clone(),
                post_process: copy_steps(&self.post_process),
            },
            ImportPhase::LoadingTexture => {
                let k = self.materials.len();
                let mut bindings: Vec<BindGroupEntry> = Vec::new();
                bindings.push(BindGroupEntry { binding: 0, resource: BindingResource::TextureView });
                bindings.push(BindGroupEntry { binding: 1, resource: BindingResource::Sampler });
                assert(bindings@ =~= texture_bindings());
                ImportAction::LoadTexture {
                    device: self.device,
                    queue: self.queue,
                    layout: self.layout,
                    path: AssimpModelLoader::load_diffuse_texture(
                        self.folder.as_str(),
                        &self.scene_materials[k],
                    ),
                    bindings,
                }
            },
            ImportPhase::CreatingBuffers => {
                let k = self.meshes.len();
                match AssimpModelLoader::create_mesh(&self.scene_meshes[k], self.scene_materials.len()) {
                    Ok(data) => ImportAction::CreateBuffers { device: self.device, data },
                    Err(_) => ImportAction::Finished,
                }
            },
            ImportPhase::Done => ImportAction::Finished,
            ImportPhase::Failed => ImportAction::Finished,
        }
    }

    /// Takes an answer and moves on: to the next material, the next mesh, the
    /// finished model or a failure. An answer to something that the import
    /// is not waiting for changes nothing.
    pub fn advance(self, event: ImportEvent) -> (import: Self)
        ensures
            import@ == self@.next(event@),
            import@.consistent(),
    {
        proof {
            use_type_invariant(&self);
            lemma_next_is_consistent(self@, event@);
        }
        let ghost before = self@;
        let ModelImport {
            path,
            post_process,
            device,
            queue,
            layout,
            phase,
            folder,
            scene_materials,
            scene_meshes,
            mut materials,
            mut meshes,
            error,
        } = self;
        match (phase, event) {
            (ImportPhase::ReadingScene, ImportEvent::SceneUnreadable) => ModelImport {
                path,
                post_process,
                device,
                queue,
                layout,
                phase: ImportPhase::Failed,
                folder,
                scene_materials,
                scene_meshes,
                materials,
                meshes,
                error: Some(LoadError::UnableToReadFile),
            },
            (ImportPhase::ReadingScene, ImportEvent::SceneRead(scene)) => {
                match parent(path.as_str()) {
                    None => ModelImport {
                        path,
                        post_process,
                        device,
                        queue,
                        layout,
                        phase: ImportPhase::Failed,
                        folder,
                        scene_materials,
                        scene_meshes,
                        materials,
                        meshes,
                        error: Some(LoadError::OtherError(String::from_str(NO_PARENT_FOLDER))),
                    },
                    Some(found) => {
                        let ImportedScene { materials: read_materials, meshes: read_meshes } = scene;
                        settle(
                            path,
                            post_process,
                            device,
                            queue,
                            layout,
                            found,
                            read_materials,
                            read_meshes,
                            materials,
                            meshes,
                        )
                    },
                }
            },
            (ImportPhase::LoadingTexture, ImportEvent::TextureUnreadable) => ModelImport {
                path,
                post_process,
                device,
                queue,
                layout,
                phase: ImportPhase::Failed,
                folder,
                scene_materials,
                scene_meshes,
                materials,
                meshes,
                error: Some(LoadError::UnableToReadFile),
            },
            (ImportPhase::LoadingTexture, ImportEvent::TextureLoaded { texture, bind_group }) => {
                let material = AssimpModelLoader::create_material(texture, bind_group);
                materials.push(material);
                assert(materials.deep_view() =~= before.materials.push(material@));
                settle(
                    path,
                    post_process,
                    device,
                    queue,
                    layout,
                    folder,
                    scene_materials,
                    scene_meshes,
                    materials,
                    meshes,
                )
            },
            (
                ImportPhase::CreatingBuffers,
                ImportEvent::BuffersCreated { vertex_buffer, index_buffer },
            ) => {
                let k = meshes.len();
                let source = &scene_meshes[k];
                let mesh = Mesh::new(
                    source.name.clone(),
                    vertex_buffer,
                    index_buffer,
                    (source.faces.len() * 3) as u32,
                    source.material_index as usize,
                );
                meshes.push(mesh);
                assert(meshes.deep_view() =~= before.meshes.push(mesh@));
                settle(
                    path,
                    post_process,
                    device,
                    queue,
                    layout,
                    folder,
                    scene_materials,
                    scene_meshes,
                    materials,
                    meshes,
                )
            },
            (phase, _) => ModelImport {
                path,
                post_process,
                device,
                queue,
                layout,
                phase,
                folder,
                scene_materials,
                scene_meshes,
                materials,
                meshes,
                error,
            },
        }
    }

    /// The outcome of an import that is over: the model, or why there is
    /// none. An import that is not over has no outcome yet.
    pub fn finish(self) -> (outcome: Option<Result<Model, LoadError>>)
        ensures
            match self@.phase {
                ImportPhase::Done => match outcome {
                    Some(Ok(model)) => model@ == self@.model() && imported(model@, self@.scene)
                        && model@.well_formed(),
                    _ => false,
                },
                ImportPhase::Failed => match outcome {
                    Some(Err(error)) => self@.error == Some(error@),
                    _ => false,
                },
                _ => outcome.is_none(),
            },
    {
        proof {
            use_type_invariant(&self);
            if self@.phase == ImportPhase::Done {
                lemma_done_import_matches_scene(self@);
            }
        }
        let ModelImport { phase, materials, meshes, error, .. } = self;
        match phase {
            ImportPhase::Done => Some(Ok(Model::new(meshes, materials))),
            ImportPhase::Failed => match error {
                Some(error) => Some(Err(error)),
                None => None,
            },
            _ => None,
        }
    }
}

/// The steps, copied.
fn copy_steps(steps: &Vec<PostProcess>) -> (copy: Vec<PostProcess>)
    ensures
        copy@ == steps@,
{
    let mut copy: Vec<PostProcess> = Vec::new();
    let mut i: usize = 0;
    while i < steps.len()
        invariant
            i <= steps.len(),
            copy@ == steps@.subrange(0, i as int),
        decreases steps.len() - i,
    {
        copy.push(steps[i]);
        assert(copy@ =~= steps@.subrange(0, i + 1));
        i += 1;
    }
    assert(steps@.subrange(0, i as int) =~= steps@);
    copy
}

/// The import made of the given parts, turned to what is still missing.
fn settle(
    path: String,
    post_process: Vec<PostProcess>,
    device: DeviceHandle,
    queue: QueueHandle,
    layout: BindGroupLayoutHandle,
    folder: String,
    scene_materials: Vec<ImportedMaterial>,
    scene_meshes: Vec<ImportedMesh>,
    materials: Vec<Material>,
    meshes: Vec<Mesh>,
) -> (import: ModelImport)
    requires
        parts(
            path@,
            post_process@,
            device,
            queue,
            layout,
            folder@,
            scene_materials.deep_view(),
            scene_meshes.deep_view(),
            materials.deep_view(),
            meshes.deep_view(),
        ).proceed().consistent(),
    ensures
        import@ == parts(
            path@,
            post_process@,
            device,
            queue,
            layout,
            folder@,
            scene_materials.deep_view(),
            scene_meshes.deep_view(),
            materials.deep_view(),
            meshes.deep_view(),
        ).proceed(),
        import@.consistent(),
{
    if materials.len() < scene_materials.len() {
        ModelImport {
            path,
            post_process,
            device,
            queue,
            layout,
            phase: ImportPhase::LoadingTexture,
            folder,
            scene_materials,
            scene_meshes,
            materials,
            meshes,
            error: None,
        }
    } else if meshes.len() < scene_meshes.len() {
        let k = meshes.len();
        match AssimpModelLoader::create_mesh(&scene_meshes[k], scene_materials.len()) {
            Err(error) => ModelImport {
                path,
                post_process,
                device,
                queue,
                layout,
                phase: ImportPhase::Failed,
                folder,
                scene_materials,
                scene_meshes,
                materials,
                meshes,
                error: Some(error),
            },
            Ok(_) => ModelImport {
                path,
                post_process,
                device,
                queue,
                layout,
                phase: ImportPhase::CreatingBuffers,
                folder,
                scene_materials,
                scene_meshes,
                materials,
                meshes,
                error: None,
            },
        }
    } else {
        ModelImport {
            path,
            post_process,
            device,
            queue,
            layout,
            phase: ImportPhase::Done,
            folder,
            scene_materials,
            scene_meshes,
            materials,
            meshes,
            error: None,
        }
    }
}

/// The state made of the given parts, before it is turned to what is missing.
spec fn parts(
    path: Seq<char>,
    post_process: Seq<PostProcess>,
    device: DeviceHandle,
    queue: QueueHandle,
    layout: BindGroupLayoutHandle,
    folder: Seq<char>,
    scene_materials: Seq<Seq<Seq<char>>>,
    scene_meshes: Seq<ImportedMeshView>,
    materials: Seq<MaterialView>,
    meshes: Seq<MeshView>,
) -> ImportView {
    ImportView {
        path,
        post_process,
        device,
        queue,
        layout,
        phase: ImportPhase::Done,
        folder,
        scene: ImportedSceneView { materials: scene_materials, meshes: scene_meshes },
        materials,
        meshes,
        error: None,
    }
}

} // verus!
