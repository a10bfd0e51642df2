//! A scene as an importer hands it over, before anything is uploaded.

use vstd::prelude::*;

verus! {

/// Three components, each the bit pattern of a 32-bit float.
#[derive(Clone, Copy, Debug, PartialEq, Eq, Structural)]
pub struct Vector3D {
    pub x: u32,
    pub y: u32,
    pub z: u32,
}

/// A step that the importer applies to a scene after parsing it.
#[derive(Clone, Copy, Debug, PartialEq, Eq, Structural)]
pub enum PostProcess {
    CalculateTangentSpace,
    Triangulate,
    RemoveRedundantMaterials,
    FindInstances,
    SortByPrimitiveType,
    GenerateUVCoords,
}

/// A mesh of an imported scene.
#[derive(Debug)]
pub struct ImportedMesh {
    pub name: String,
    pub vertices: Vec<Vector3D>,
    pub normals: Vec<Vector3D>,
    /// The first set of texture coordinates, one for each vertex, if the
    /// mesh has any.
    pub texture_coords: Option<Vec<Vector3D>>,
    /// The faces, each a list of positions in `vertices`.
    pub faces: Vec<Vec<u32>>,
    /// The position of the mesh's material among those of the scene.
    pub material_index: u32,
}

/// What an imported mesh holds.
pub struct ImportedMeshView {
    pub name: Seq<char>,
    pub vertices: Seq<Vector3D>,
    pub normals: Seq<Vector3D>,
    pub texture_coords: Option<Seq<Vector3D>>,
    pub faces: Seq<Seq<u32>>,
    pub material_index: u32,
}

impl View for ImportedMesh {
    type V = ImportedMeshView;

    open spec fn view(&self) -> ImportedMeshView {
        ImportedMeshView {
            name: self.name@,
            vertices: self.vertices@,
            normals: self.normals@,
            texture_coords: match self.texture_coords {
                Some(coords) => Some(coords@),
                None => None,
            },
            faces: self.faces.deep_view(),
            material_index: self.material_index,
        }
    }
}

impl DeepView for ImportedMesh {
    type V = ImportedMeshView;

    open spec fn deep_view(&self) -> ImportedMeshView {
        self@
    }
}

/// A material of an imported scene: the paths of its diffuse textures, as
/// the source file writes them.
#[derive(Debug)]
pub struct ImportedMaterial {
    pub diffuse_textures: Vec<String>,
}

impl View for ImportedMaterial {
    type V = Seq<Seq<char>>;

    open spec fn view(&self) -> Seq<Seq<char>> {
        self.diffuse_textures.deep_view()
    }
}

impl DeepView for ImportedMaterial {
    type V = Seq<Seq<char>>;

    open spec fn deep_view(&self) -> Seq<Seq<char>> {
        self@
    }
}

/// An imported scene: its materials and its meshes, in the importer's order.
#[derive(Debug)]
pub struct ImportedScene {
    pub materials: Vec<ImportedMaterial>,
    pub meshes: Vec<ImportedMesh>,
}

/// What an imported scene holds.
pub struct ImportedSceneView {
    pub materials: Seq<Seq<Seq<char>>>,
    pub meshes: Seq<ImportedMeshView>,
}

impl View for ImportedScene {
    type V = ImportedSceneView;

    open spec fn view(&self) -> ImportedSceneView {
        ImportedSceneView {
            materials: self.materials.deep_view(),
            meshes: self.meshes.deep_view(),
        }
    }
}

} // verus!
