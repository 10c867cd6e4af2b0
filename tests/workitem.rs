use geobacter_runtime_core::workitem::{
    workgroup_ids, workitem_ids, Axis, DispatchPacket, GridAxis, LaneIds, WorkGroupAxis,
    WorkItemAxis, XAxis, YAxis, ZAxis,
};

fn packet() -> DispatchPacket {
    DispatchPacket {
        workgroup_size_x: 64,
        workgroup_size_y: 4,
        workgroup_size_z: 2,
        grid_size_x: 256,
        grid_size_y: 16,
        grid_size_z: 4,
    }
}

fn lane() -> LaneIds {
    LaneIds {
        workitem_x: 5,
        workitem_y: 3,
        workitem_z: 1,
        workgroup_x: 2,
        workgroup_y: 1,
        workgroup_z: 1,
    }
}

#[test]
fn ids_and_sizes_by_axis() {
    let p = packet();
    let ids = lane();
    assert_eq!(workitem_ids(&ids), [5, 3, 1]);
    assert_eq!(workgroup_ids(&ids), [2, 1, 1]);
    assert_eq!(p.workgroup_sizes(), [64, 4, 2]);
    assert_eq!(p.grid_sizes(), [256, 16, 4]);
    assert_eq!(Axis::Y.workitem_id(&ids), YAxis.workitem_id(&ids));
    assert_eq!(Axis::Z.workgroup_id(&ids), 1);
    assert_eq!(Axis::X.workgroup_size(&p), 64);
    assert_eq!(Axis::Z.grid_size(&p), ZAxis.grid_size(&p));
    assert_eq!(XAxis.grid_size(&p), 256);
}

#[test]
fn global_ids_combine_group_and_item() {
    let p = packet();
    let ids = lane();
    assert_eq!(p.global_id_x(&ids), 2 * 64 + 5);
    assert_eq!(p.global_id_y(&ids), 1 * 4 + 3);
    assert_eq!(p.global_id_z(&ids), 1 * 2 + 1);
    assert_eq!(p.global_id(&ids, Axis::X), 133);
    assert_eq!(p.global_ids(&ids), (133, 7, 3));
}

#[test]
fn global_linear_id_is_row_major() {
    let p = packet();
    let ids = lane();
    assert_eq!(p.global_linear_id(&ids), (3 * 16 + 7) * 256 + 133);
    let origin = LaneIds {
        workitem_x: 0,
        workitem_y: 0,
        workitem_z: 0,
        workgroup_x: 0,
        workgroup_y: 0,
        workgroup_z: 0,
    };
    assert_eq!(p.global_linear_id(&origin), 0);
}
