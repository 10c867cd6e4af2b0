//! Position of a work item within a kernel dispatch.
//!
//! On the device the work-item and work-group ids of the running lane are
//! read from hardware registers. Here they are carried as plain values in a
//! `LaneIds`, so that the index arithmetic built on them can be checked.
use vstd::prelude::*;

verus! {

/// One of the three dimensions of a dispatch grid.
#[derive(Clone, Copy, Debug, PartialEq, Eq, Structural, PartialOrd, Ord)]
pub enum Axis {
    X,
    Y,
    Z,
}

#[derive(Default, Clone, Copy, Debug, PartialEq, Eq, Structural, PartialOrd, Ord)]
pub struct XAxis;

#[derive(Default, Clone, Copy, Debug, PartialEq, Eq, Structural, PartialOrd, Ord)]
pub struct YAxis;

#[derive(Default, Clone, Copy, Debug, PartialEq, Eq, Structural, PartialOrd, Ord)]
pub struct ZAxis;

/// The ids the hardware reports for the running lane: its work-item id
/// within its work group and its work group's id within the grid.
#[derive(Clone, Copy, Debug, PartialEq, Eq, Structural)]
pub struct LaneIds {
    pub workitem_x: u32,
    pub workitem_y: u32,
    pub workitem_z: u32,
    pub workgroup_x: u32,
    pub workgroup_y: u32,
    pub workgroup_z: u32,
}

/// The part of a kernel dispatch packet that describes the launch shape.
#[derive(Clone, Copy, Debug, PartialEq, Eq, Structural)]
pub struct DispatchPacket {
    pub workgroup_size_x: u16,
    pub workgroup_size_y: u16,
    pub workgroup_size_z: u16,
    pub grid_size_x: u32,
    pub grid_size_y: u32,
    pub grid_size_z: u32,
}

impl LaneIds {
    pub open spec fn workitem(&self, a: Axis) -> u32 {
        match a {
            Axis::X => self.workitem_x,
            Axis::Y => self.workitem_y,
            Axis::Z => self.workitem_z,
        }
    }

    pub open spec fn workgroup(&self, a: Axis) -> u32 {
        match a {
            Axis::X => self.workgroup_x,
            Axis::Y => self.workgroup_y,
            Axis::Z => self.workgroup_z,
        }
    }
}

impl DispatchPacket {
    pub open spec fn spec_workgroup_size(&self, a: Axis) -> u32 {
        match a {
            Axis::X => self.workgroup_size_x as u32,
            Axis::Y => self.workgroup_size_y as u32,
            Axis::Z => self.workgroup_size_z as u32,
        }
    }

    pub open spec fn spec_grid_size(&self, a: Axis) -> u32 {
        match a {
            Axis::X => self.grid_size_x,
            Axis::Y => self.grid_size_y,
            Axis::Z => self.grid_size_z,
        }
    }

    /// Global id of a lane along one axis: its group's offset plus its
    /// position within the group.
    pub open spec fn spec_global_id(&self, ids: LaneIds, a: Axis) -> int {
        ids.workgroup(a) * self.spec_workgroup_size(a) + ids.workitem(a)
    }

    /// The lane's global id along `a` fits in 32 bits.
    pub open spec fn global_id_fits(&self, ids: LaneIds, a: Axis) -> bool {
        self.spec_global_id(ids, a) <= u32::MAX
    }

    /// Row-major linear index of the lane over the whole grid, x fastest.
    pub open spec fn spec_global_linear_id(&self, ids: LaneIds) -> int {
        (self.spec_global_id(ids, Axis::Z) * self.grid_size_y + self.spec_global_id(ids, Axis::Y))
            * self.grid_size_x + self.spec_global_id(ids, Axis::X)
    }
}

pub trait WorkItemAxis {
    spec fn item_axis(&self) -> Axis;

    fn workitem_id(&self, ids: &LaneIds) -> (r: u32)
        ensures
            r == ids.workitem(self.item_axis()),
    ;
}

pub trait WorkGroupAxis {
    spec fn group_axis(&self) -> Axis;

    fn workgroup_id(&self, ids: &LaneIds) -> (r: u32)
        ensures
            r == ids.workgroup(self.group_axis()),
    ;

    fn workgroup_size(&self, p: &DispatchPacket) -> (r: u32)
        ensures
            r == p.spec_workgroup_size(self.group_axis()),
    ;
}

pub trait GridAxis {
    spec fn grid_axis(&self) -> Axis;

    fn grid_size(&self, p: &DispatchPacket) -> (r: u32)
        ensures
            r == p.spec_grid_size(self.grid_axis()),
    ;
}

impl WorkItemAxis for Axis {
    open spec fn item_axis(&self) -> Axis {
        *self
    }

    fn workitem_id(&self, ids: &LaneIds) -> (r: u32) {
        match self {
            Axis::X => XAxis.workitem_id(ids),
            Axis::Y => YAxis.workitem_id(ids),
            Axis::Z => ZAxis.workitem_id(ids),
        }
    }
}

impl WorkItemAxis for XAxis {
    open spec fn item_axis(&self) -> Axis {
        Axis::X
    }

    fn workitem_id(&self, ids: &LaneIds) -> (r: u32) {
        ids.workitem_x
    }
}

impl WorkItemAxis for YAxis {
    open spec fn item_axis(&self) -> Axis {
        Axis::Y
    }

    fn workitem_id(&self, ids: &LaneIds) -> (r: u32) {
        ids.workitem_y
    }
}

impl WorkItemAxis for ZAxis {
    open spec fn item_axis(&self) -> Axis {
        Axis::Z
    }

    fn workitem_id(&self, ids: &LaneIds) -> (r: u32) {
        ids.workitem_z
    }
}

impl WorkGroupAxis for Axis {
    open spec fn group_axis(&self) -> Axis {
        *self
    }

    fn workgroup_id(&self, ids: &LaneIds) -> (r: u32) {
        match self {
            Axis::X => XAxis.workgroup_id(ids),
            Axis::Y => YAxis.workgroup_id(ids),
            Axis::Z => ZAxis.workgroup_id(ids),
        }
    }

    fn workgroup_size(&self, p: &DispatchPacket) -> (r: u32) {
        match self {
            Axis::X => XAxis.workgroup_size(p),
            Axis::Y => YAxis.workgroup_size(p),
            Axis::Z => ZAxis.workgroup_size(p),
        }
    }
}

impl WorkGroupAxis for XAxis {
    open spec fn group_axis(&self) -> Axis {
        Axis::X
    }

    fn workgroup_id(&self, ids: &LaneIds) -> (r: u32) {
        ids.workgroup_x
    }

    fn workgroup_size(&self, p: &DispatchPacket) -> (r: u32) {
        p.workgroup_size_x as u32
    }
}

impl WorkGroupAxis for YAxis {
    open spec fn group_axis(&self) -> Axis {
        Axis::Y
    }

    fn workgroup_id(&self, ids: &LaneIds) -> (r: u32) {
        ids.workgroup_y
    }

    fn workgroup_size(&self, p: &DispatchPacket) -> (r: u32) {
        p.workgroup_size_y as u32
    }
}

impl WorkGroupAxis for ZAxis {
    open spec fn group_axis(&self) -> Axis {
        Axis::Z
    }

    fn workgroup_id(&self, ids: &LaneIds) -> (r: u32) {
        ids.workgroup_z
    }

    fn workgroup_size(&self, p: &DispatchPacket) -> (r: u32) {
        p.workgroup_size_z as u32
    }
}

impl GridAxis for Axis {
    open spec fn grid_axis(&self) -> Axis {
        *self
    }

    fn grid_size(&self, p: &DispatchPacket) -> (r: u32) {
        match self {
            Axis::X => XAxis.grid_size(p),
            Axis::Y => YAxis.grid_size(p),
            Axis::Z => ZAxis.grid_size(p),
        }
    }
}

impl GridAxis for XAxis {
    open spec fn grid_axis(&self) -> Axis {
        Axis::X
    }

    fn grid_size(&self, p: &DispatchPacket) -> (r: u32) {
        p.grid_size_x
    }
}

impl GridAxis for YAxis {
    open spec fn grid_axis(&self) -> Axis {
        Axis::Y
    }

    fn grid_size(&self, p: &DispatchPacket) -> (r: u32) {
        p.grid_size_y
    }
}

impl GridAxis for ZAxis {
    open spec fn grid_axis(&self) -> Axis {
        Axis::Z
    }

    fn grid_size(&self, p: &DispatchPacket) -> (r: u32) {
        p.grid_size_z
    }
}

/// The lane's work-item ids, x, y, z.
pub fn workitem_ids(ids: &LaneIds) -> (r: [u32; 3])
    ensures
        r@ == seq![ids.workitem_x, ids.workitem_y, ids.workitem_z],
{
    let r = [XAxis.workitem_id(ids), YAxis.workitem_id(ids), ZAxis.workitem_id(ids)];
    assert(r@ =~= seq![ids.workitem_x, ids.workitem_y, ids.workitem_z]);
    r
}

/// The lane's work-group ids, x, y, z.
pub fn workgroup_ids(ids: &LaneIds) -> (r: [u32; 3])
    ensures
        r@ == seq![ids.workgroup_x, ids.workgroup_y, ids.workgroup_z],
{
    let r = [XAxis.workgroup_id(ids), YAxis.workgroup_id(ids), ZAxis.workgroup_id(ids)];
    assert(r@ =~= seq![ids.workgroup_x, ids.workgroup_y, ids.workgroup_z]);
    r
}

impl DispatchPacket {
    /// Work-group sizes, x, y, z.
    pub fn workgroup_sizes(&self) -> (r: [u32; 3])
        ensures
            r@ == seq![
                self.workgroup_size_x as u32,
                self.workgroup_size_y as u32,
                self.workgroup_size_z as u32,
            ],
    {
        let r = [XAxis.workgroup_size(self), YAxis.workgroup_size(self), ZAxis.workgroup_size(self)];
        assert(r@ =~= seq![
            self.workgroup_size_x as u32,
            self.workgroup_size_y as u32,
            self.workgroup_size_z as u32,
        ]);
        r
    }

    /// Grid sizes, x, y, z.
    pub fn grid_sizes(&self) -> (r: [u32; 3])
        ensures
            r@ == seq![self.grid_size_x, self.grid_size_y, self.grid_size_z],
    {
        let r = [XAxis.grid_size(self), YAxis.grid_size(self), ZAxis.grid_size(self)];
        assert(r@ =~= seq![self.grid_size_x, self.grid_size_y, self.grid_size_z]);
        r
    }

    /// Global id of the lane along `axis`.
    pub fn global_id<T>(&self, ids: &LaneIds, axis: T) -> (r: u32) where
        T: WorkItemAxis + WorkGroupAxis,

        requires
            axis.item_axis() == axis.group_axis(),
            self.global_id_fits(*ids, axis.group_axis()),
        ensures
            r == self.spec_global_id(*ids, axis.group_axis()),
    {
        let l = axis.workitem_id(ids);
        let g = axis.workgroup_id(ids);
        let s = axis.workgroup_size(self);
        assert(g * s <= g * s + l) by (nonlinear_arith);
        g * s + l
    }

    pub fn global_id_x(&self, ids: &LaneIds) -> (r: u32)
        requires
            self.global_id_fits(*ids, Axis::X),
        ensures
            r == self.spec_global_id(*ids, Axis::X),
    {
        self.global_id(ids, XAxis)
    }

    pub fn global_id_y(&self, ids: &LaneIds) -> (r: u32)
        requires
            self.global_id_fits(*ids, Axis::Y),
        ensures
            r == self.spec_global_id(*ids, Axis::Y),
    {
        self.global_id(ids, YAxis)
    }

    pub fn global_id_z(&self, ids: &LaneIds) -> (r: u32)
        requires
            self.global_id_fits(*ids, Axis::Z),
        ensures
            r == self.spec_global_id(*ids, Axis::Z),
    {
        self.global_id(ids, ZAxis)
    }

    /// Global ids of the lane along x, y and z.
    pub fn global_ids(&self, ids: &LaneIds) -> (r: (u32, u32, u32))
        requires
            self.global_id_fits(*ids, Axis::X),
            self.global_id_fits(*ids, Axis::Y),
            self.global_id_fits(*ids, Axis::Z),
        ensures
            r.0 == self.spec_global_id(*ids, Axis::X),
            r.1 == self.spec_global_id(*ids, Axis::Y),
            r.2 == self.spec_global_id(*ids, Axis::Z),
    {
        (self.global_id_x(ids), self.global_id_y(ids), self.global_id_z(ids))
    }

    /// Linear index of the lane over the whole grid, x varying fastest.
    pub fn global_linear_id(&self, ids: &LaneIds) -> (r: usize)
        requires
            self.global_id_fits(*ids, Axis::X),
            self.global_id_fits(*ids, Axis::Y),
            self.global_id_fits(*ids, Axis::Z),
            self.spec_global_linear_id(*ids) <= usize::MAX,
        ensures
            r == self.spec_global_linear_id(*ids),
    {
        let n = self.grid_sizes();
        let n0 = n[0] as usize;
        let n1 = n[1] as usize;
        let i0 = self.global_id(ids, XAxis) as usize;
        let i1 = self.global_id(ids, YAxis) as usize;
        let i2 = self.global_id(ids, ZAxis) as usize;
        if n0 == 0 {
            assert(self.spec_global_linear_id(*ids) == i0) by (nonlinear_arith)
                requires
                    self.spec_global_linear_id(*ids) == (i2 * n1 + i1) * n0 + i0,
                    n0 == 0;
            return i0;
        }
        proof {
            let a = i2 as int * n1 as int;
            let b = (a + i1) * n0 as int;
            assert(0 <= a) by (nonlinear_arith)
                requires a == i2 as int * n1 as int, i2 >= 0, n1 >= 0;
            assert(a + i1 <= b) by (nonlinear_arith)
                requires b == (a + i1) * n0 as int, a >= 0, i1 >= 0, n0 >= 1;
        }
        (i2 * n1 + i1) * n0 + i0
    }
}

} // verus!
