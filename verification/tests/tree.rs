use h5tree::attrs::get_attrs;
use h5tree::model::{
    DatasetInfo, DatasetLayoutInfo, EntityInfo, Error, FileInfo, FilterInfo, GroupInfo, LinkKind,
    TypeDescr,
};
use h5tree::raw::{RawChild, RawDataset, RawGroup, RawLayout};
use h5tree::text::{file_name_of, last_segment};

fn raw_dataset(path: &str) -> RawDataset {
    RawDataset {
        name_path: path.to_string(),
        id: 7,
        link: LinkKind::Hard,
        shape: vec![10],
        layout: RawLayout::Contiguous,
        chunk_shape: None,
        filters: vec![],
        dtype: Some(TypeDescr::Integer { size: 8 }),
        attrs: None,
    }
}

fn raw_group(path: &str, children: Vec<RawChild>) -> RawGroup {
    RawGroup {
        name_path: path.to_string(),
        id: 3,
        link: LinkKind::Hard,
        attrs: None,
        children,
    }
}

#[test]
fn load_nexus_file() {
    let filepath = "tests/simple_nexus.h5";
    let root = raw_group(
        "/",
        vec![
            RawChild::Group(raw_group("/entry", vec![])),
            RawChild::Dataset(raw_dataset("/links")),
        ],
    );

    let filehandle = FileInfo::read(filepath, 45656, root).unwrap();
    assert!(filehandle.name.ends_with("simple_nexus.h5"));
    assert_eq!(filehandle.size, 45656);
    assert_eq!(filehandle.entities.len(), 2);

    let filetree = filehandle.to_tree_items();
    assert_eq!(filetree.len(), 2);
}

#[test]
fn chunked_dataset_carries_filter_pipeline() {
    let mut d = raw_dataset("/data");
    d.shape = vec![4, 6];
    d.layout = RawLayout::Chunked;
    d.chunk_shape = Some(vec![2, 3]);
    d.filters = vec![FilterInfo { id: 1, params: vec![6] }];
    let info = DatasetInfo::from_raw(d).unwrap();
    match &info.layout_info {
        DatasetLayoutInfo::Chunked { chunk_shape, filters } => {
            assert!(!filters.is_empty());
            assert_eq!(filters[0], FilterInfo { id: 1, params: vec![6] });
            assert_eq!(chunk_shape.len(), info.shape.len());
        }
        other => panic!("expected chunked layout, got {:?}", other),
    }
}

#[test]
fn resolve_first_entity_and_dataset_descent() {
    let root = raw_group(
        "/",
        vec![
            RawChild::Dataset(raw_dataset("/d0")),
            RawChild::Group(raw_group("/g1", vec![])),
        ],
    );
    let f = FileInfo::read("f.h5", 1, root).unwrap();
    match f.entity(vec![0]).unwrap() {
        EntityInfo::Dataset(d) => assert_eq!(d.name, "d0"),
        other => panic!("expected the first entity, a dataset, got {:?}", other),
    }
    assert_eq!(f.entity(vec![0, 0]), Err(Error::NotIndexable));
}

#[test]
fn resolve_empty_path_fails() {
    let f = FileInfo::read("f.h5", 1, raw_group("/", vec![])).unwrap();
    assert_eq!(f.entity(vec![]), Err(Error::EmptyPath));
}

#[test]
fn resolve_out_of_range() {
    let root = raw_group("/", vec![RawChild::Group(raw_group("/g", vec![]))]);
    let f = FileInfo::read("f.h5", 1, root).unwrap();
    assert_eq!(f.entity(vec![1]), Err(Error::IndexOutOfRange));
    assert_eq!(f.entity(vec![0, 2]), Err(Error::IndexOutOfRange));
}

#[test]
fn resolve_nested_group_and_dataset() {
    let inner = raw_group("/outer/inner", vec![RawChild::Dataset(raw_dataset("/outer/inner/d"))]);
    let outer = raw_group("/outer", vec![RawChild::Group(inner)]);
    let f = FileInfo::read("f.h5", 1, raw_group("/", vec![RawChild::Group(outer)])).unwrap();
    match f.entity(vec![0, 0, 0]).unwrap() {
        EntityInfo::Dataset(d) => assert_eq!(d.name, "d"),
        other => panic!("expected the nested dataset, got {:?}", other),
    }
    assert_eq!(f.entity(vec![0, 0, 0, 0]), Err(Error::NotIndexable));
}

#[test]
fn resolve_same_query_same_answer() {
    let root = raw_group(
        "/",
        vec![
            RawChild::Group(raw_group("/g", vec![RawChild::Dataset(raw_dataset("/g/d"))])),
            RawChild::Dataset(raw_dataset("/d")),
        ],
    );
    let f = FileInfo::read("f.h5", 1, root).unwrap();
    assert_eq!(f.entity(vec![0, 0]), f.entity(vec![0, 0]));
    assert_eq!(f.entity(vec![1, 0]), f.entity(vec![1, 0]));
    assert_eq!(f.entity(vec![]), f.entity(vec![]));
}

#[test]
fn sibling_order_preserved() {
    let root = raw_group(
        "/",
        vec![
            RawChild::Group(raw_group("/c", vec![])),
            RawChild::Dataset(raw_dataset("/a")),
            RawChild::Group(raw_group("/b", vec![])),
        ],
    );
    let f = FileInfo::read("f.h5", 1, root).unwrap();
    let names: Vec<&str> = f
        .entities
        .iter()
        .map(|e| match e {
            EntityInfo::Group(g) => g.name.as_str(),
            EntityInfo::Dataset(d) => d.name.as_str(),
        })
        .collect();
    assert_eq!(names, vec!["c", "a", "b"]);
}

#[test]
fn unknown_child_aborts_load_with_its_name() {
    let root = raw_group(
        "/",
        vec![
            RawChild::Group(raw_group("/fine", vec![])),
            RawChild::Unknown { name: "mystery".to_string() },
        ],
    );
    assert_eq!(
        FileInfo::read("f.h5", 1, root),
        Err(Error::UnknownEntityKind("mystery".to_string()))
    );
}

#[test]
fn first_failing_child_wins() {
    let mut bad = raw_dataset("/bad");
    bad.dtype = None;
    let root = raw_group(
        "/",
        vec![
            RawChild::Dataset(bad),
            RawChild::Unknown { name: "mystery".to_string() },
        ],
    );
    assert_eq!(FileInfo::read("f.h5", 1, root), Err(Error::Format));
}

#[test]
fn failure_deep_in_a_subtree_aborts_the_whole_load() {
    let deep = raw_group(
        "/a/b",
        vec![RawChild::Unknown { name: "broken-link".to_string() }],
    );
    let root = raw_group("/", vec![RawChild::Group(raw_group("/a", vec![RawChild::Group(deep)]))]);
    assert_eq!(
        FileInfo::read("f.h5", 1, root),
        Err(Error::UnknownEntityKind("broken-link".to_string()))
    );
}

#[test]
fn chunked_without_chunk_dims_is_format_error() {
    let mut d = raw_dataset("/data");
    d.layout = RawLayout::Chunked;
    d.chunk_shape = None;
    assert_eq!(DatasetInfo::from_raw(d), Err(Error::Format));
}

#[test]
fn chunk_rank_mismatch_is_format_error() {
    let mut d = raw_dataset("/data");
    d.shape = vec![4, 6];
    d.layout = RawLayout::Chunked;
    d.chunk_shape = Some(vec![2]);
    assert_eq!(DatasetInfo::from_raw(d), Err(Error::Format));
}

#[test]
fn missing_element_type_is_format_error() {
    let mut d = raw_dataset("/data");
    d.dtype = None;
    assert_eq!(DatasetInfo::from_raw(d), Err(Error::Format));
}

#[test]
fn loaded_tree_never_violates_chunk_rank() {
    let mut d = raw_dataset("/g/data");
    d.shape = vec![8, 8, 3];
    d.layout = RawLayout::Chunked;
    d.chunk_shape = Some(vec![4, 4, 3]);
    let root = raw_group("/", vec![RawChild::Group(raw_group("/g", vec![RawChild::Dataset(d)]))]);
    let f = FileInfo::read("f.h5", 1, root).unwrap();
    match f.entity(vec![0, 0]).unwrap() {
        EntityInfo::Dataset(ds) => match &ds.layout_info {
            DatasetLayoutInfo::Chunked { chunk_shape, .. } => {
                assert_eq!(chunk_shape.len(), ds.shape.len());
            }
            other => panic!("expected chunked layout, got {:?}", other),
        },
        other => panic!("expected a dataset, got {:?}", other),
    }
}

#[test]
fn group_build_keeps_metadata() {
    let mut g = raw_group("/top/sub", vec![]);
    g.id = 42;
    g.link = LinkKind::Soft;
    g.attrs = Some(vec![("units".to_string(), Some("mm".to_string()))]);
    let built: GroupInfo = GroupInfo::from_raw(g).unwrap();
    assert_eq!(built.name, "sub");
    assert_eq!(built.id, 42);
    assert_eq!(built.link_kind, LinkKind::Soft);
    assert!(built.entities.is_empty());
    assert_eq!(built.attrs, vec![("units".to_string(), "mm".to_string())]);
}

#[test]
fn attrs_listing_failure_gives_empty_map() {
    assert_eq!(get_attrs(None), Vec::<(String, String)>::new());
}

#[test]
fn attrs_failed_read_is_skipped() {
    let raw = vec![
        ("good".to_string(), Some("1".to_string())),
        ("broken".to_string(), None),
        ("fine".to_string(), Some("2".to_string())),
    ];
    assert_eq!(
        get_attrs(Some(raw)),
        vec![
            ("good".to_string(), "1".to_string()),
            ("fine".to_string(), "2".to_string()),
        ]
    );
}

#[test]
fn attrs_repeated_name_keeps_position_takes_latest_value() {
    let raw = vec![
        ("a".to_string(), Some("1".to_string())),
        ("b".to_string(), Some("2".to_string())),
        ("a".to_string(), Some("3".to_string())),
    ];
    assert_eq!(
        get_attrs(Some(raw)),
        vec![
            ("a".to_string(), "3".to_string()),
            ("b".to_string(), "2".to_string()),
        ]
    );
}

#[test]
fn file_name_extraction() {
    assert_eq!(file_name_of("data/simple.h5"), Ok("simple.h5".to_string()));
    assert_eq!(file_name_of("simple.h5"), Ok("simple.h5".to_string()));
    assert_eq!(file_name_of("dir/"), Ok("dir".to_string()));
    assert_eq!(file_name_of(""), Err(Error::InvalidName));
    assert_eq!(file_name_of("/"), Err(Error::InvalidName));
    assert_eq!(file_name_of("."), Err(Error::InvalidName));
    assert_eq!(file_name_of("a/.."), Err(Error::InvalidName));
}

#[test]
fn invalid_name_reported_before_tree_errors() {
    let root = raw_group("/", vec![RawChild::Unknown { name: "x".to_string() }]);
    assert_eq!(FileInfo::read("/", 1, root), Err(Error::InvalidName));
}

#[test]
fn last_segment_of_paths() {
    assert_eq!(last_segment("/a/b"), "b".to_string());
    assert_eq!(last_segment("name"), "name".to_string());
    assert_eq!(last_segment("/x/"), String::new());
    assert_eq!(last_segment("/"), String::new());
}

#[test]
fn link_kind_labels() {
    assert_eq!(LinkKind::Hard.label(), "Hard");
    assert_eq!(LinkKind::Soft.label(), "Soft");
    assert_eq!(LinkKind::External.label(), "External");
}

#[test]
fn dataset_keeps_metadata_and_attrs() {
    let mut d = raw_dataset("/detector/counts");
    d.id = 99;
    d.link = LinkKind::External;
    d.shape = vec![3, 5];
    d.attrs = Some(vec![
        ("units".to_string(), Some("counts".to_string())),
        ("axis".to_string(), Some("2".to_string())),
    ]);
    let info = DatasetInfo::from_raw(d).unwrap();
    assert_eq!(info.name, "counts");
    assert_eq!(info.id, 99);
    assert_eq!(info.link_type, LinkKind::External);
    assert_eq!(info.shape, vec![3, 5]);
    assert_eq!(info.layout_info, DatasetLayoutInfo::Contiguous);
    assert_eq!(
        info.attrs,
        vec![
            ("units".to_string(), "counts".to_string()),
            ("axis".to_string(), "2".to_string()),
        ]
    );
}

fn compound_descr() -> TypeDescr {
    TypeDescr::Compound {
        fields: vec![
            h5tree::model::CompoundField {
                name: "t".to_string(),
                dtype: TypeDescr::Float { size: 8 },
                offset: 0,
            },
            h5tree::model::CompoundField {
                name: "v".to_string(),
                dtype: TypeDescr::FixedArray {
                    elem: Box::new(TypeDescr::Unsigned { size: 2 }),
                    len: 4,
                },
                offset: 8,
            },
        ],
        size: 16,
    }
}

#[test]
fn nested_element_type_is_kept() {
    let mut d = raw_dataset("/table");
    d.dtype = Some(compound_descr());
    let info = DatasetInfo::from_raw(d).unwrap();
    assert_eq!(info.dtype_descr, compound_descr());
}

#[test]
fn virtual_layout_maps_through() {
    let mut d = raw_dataset("/v");
    d.layout = RawLayout::Virtual;
    let info = DatasetInfo::from_raw(d).unwrap();
    assert_eq!(info.layout_info, DatasetLayoutInfo::Virtual);
}

#[test]
fn tree_items_mirror_names_and_nesting() {
    let root = raw_group(
        "/",
        vec![
            RawChild::Group(raw_group("/g", vec![RawChild::Dataset(raw_dataset("/g/d"))])),
            RawChild::Dataset(raw_dataset("/top")),
        ],
    );
    let f = FileInfo::read("f.h5", 1, root).unwrap();
    let items = f.to_tree_items();
    assert_eq!(items.len(), 2);
    assert_eq!(items[0].label, "g");
    assert_eq!(items[0].children.len(), 1);
    assert_eq!(items[0].children[0].label, "d");
    assert!(items[0].children[0].children.is_empty());
    assert_eq!(items[1].label, "top");
    assert!(items[1].children.is_empty());
}
