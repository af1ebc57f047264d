use vstd::prelude::*;

verus! {

/// A construction placed on a zone tile, mirrored from the server.
///
/// `traversable` tells, for each movement mode, whether the build can be crossed.
#[derive(Clone, Debug, PartialEq)]
pub struct Build {
    pub id: u32,
    pub build_id: String,
    pub row_i: u32,
    pub col_i: u32,
    pub traversable: Vec<(String, bool)>,
}

/// A build with its strings seen as character sequences.
pub struct BuildView {
    pub id: u32,
    pub build_id: Seq<char>,
    pub row_i: u32,
    pub col_i: u32,
    pub traversable: Seq<(Seq<char>, bool)>,
}

impl View for Build {
    type V = BuildView;

    open spec fn view(&self) -> BuildView {
        BuildView {
            id: self.id,
            build_id: self.build_id@,
            row_i: self.row_i,
            col_i: self.col_i,
            traversable: self.traversable@.map_values(|p: (String, bool)| (p.0@, p.1)),
        }
    }
}

/// A player character standing in a zone, mirrored from the server.
#[derive(Clone, Debug, PartialEq)]
pub struct Character {
    pub id: String,
    pub zone_row_i: u32,
    pub zone_col_i: u32,
}

} // verus!
