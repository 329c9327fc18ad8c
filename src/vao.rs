//! Vertex array objects.
use vstd::prelude::*;
use crate::gl::GlCommand;

verus! {

/// A vertex array object, by its driver name.
pub struct VAO {
    vao: u32,
}

impl VAO {
    pub closed spec fn name(&self) -> u32 {
        self.vao
    }

    /// Takes the name the driver gave the new vertex array. Creation leaves
    /// the new array bound: the returned command binds it.
    pub fn new(id: u32) -> (r: (VAO, Vec<GlCommand>))
        ensures
            r.0.name() == id,
            r.1@ == seq![GlCommand::BindVertexArray { vertex_array: Some(id) }],
    {
        (VAO { vao: id }, vec![GlCommand::BindVertexArray { vertex_array: Some(id) }])
    }

    pub fn get_id(&self) -> (r: u32)
        ensures
            r == self.name(),
    {
        self.vao
    }

    pub fn bind(&self) -> (r: Vec<GlCommand>)
        ensures
            r@ == seq![GlCommand::BindVertexArray { vertex_array: Some(self.name()) }],
    {
        vec![GlCommand::BindVertexArray { vertex_array: Some(self.vao) }]
    }

    pub fn unbind(&self) -> (r: Vec<GlCommand>)
        ensures
            r@ == seq![GlCommand::BindVertexArray { vertex_array: None }],
    {
        vec![GlCommand::BindVertexArray { vertex_array: None }]
    }

    /// The command that releases the array's name; the array is gone
    /// afterwards, so its name is released once.
    pub fn delete(self) -> (r: GlCommand)
        ensures
            r == (GlCommand::DeleteVertexArray { vertex_array: self.name() }),
    {
        GlCommand::DeleteVertexArray { vertex_array: self.vao }
    }
}

} // verus!
