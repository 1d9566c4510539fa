use cce_files::pages::browse::DirEntry;
use cce_files::pages::network::{graph_nodes, graph_selection_update, selected_graph_node};

#[test]
fn test_populate_graph_has_parent() {
    let current_dir = "/home/user/project";
    let entries = vec![
        DirEntry {
            name: "file1.txt".to_string(),
            path: "/home/user/project/file1.txt".to_string(),
            is_dir: false,
            size: 100,
            permissions: 0o644,
            modified: String::new(),
        },
        DirEntry {
            name: "subdir".to_string(),
            path: "/home/user/project/subdir".to_string(),
            is_dir: true,
            size: 4096,
            permissions: 0o755,
            modified: String::new(),
        },
    ];

    let nodes = graph_nodes(current_dir, &entries);

    // 1 parent + 1 current + 2 children = 4 nodes
    assert_eq!(nodes.len(), 4);

    // Check node names
    assert_eq!(nodes[0].name, "📁 .. (user)");
    assert_eq!(nodes[1].name, "📁 project");
    assert_eq!(nodes[2].name, "📄 file1.txt");
    assert_eq!(nodes[3].name, "📁 subdir");

    // Check connection parameters
    // Current directory points to parent
    assert_eq!(nodes[1].parameters.len(), 1);
    assert_eq!(nodes[1].parameters[0].0, "input");
    assert_eq!(nodes[1].parameters[0].1, "📁 .. (user)");

    // Children point to current directory
    assert_eq!(nodes[2].parameters.len(), 1);
    assert_eq!(nodes[2].parameters[0].0, "input");
    assert_eq!(nodes[2].parameters[0].1, "📁 project");

    assert_eq!(nodes[3].parameters.len(), 1);
    assert_eq!(nodes[3].parameters[0].0, "input");
    assert_eq!(nodes[3].parameters[0].1, "📁 project");
}

#[test]
fn test_populate_graph_root_no_parent() {
    let current_dir = "/";
    let entries = vec![DirEntry {
        name: "bin".to_string(),
        path: "/bin".to_string(),
        is_dir: true,
        size: 4096,
        permissions: 0o755,
        modified: String::new(),
    }];

    let nodes = graph_nodes(current_dir, &entries);

    // No parent, so 1 current + 1 child = 2 nodes
    assert_eq!(nodes.len(), 2);
    assert_eq!(nodes[0].name, "📁 /");
    assert_eq!(nodes[1].name, "📁 bin");

    // Current has no parent parameter
    assert!(nodes[0].parameters.is_empty());

    // Child points to current
    assert_eq!(nodes[1].parameters.len(), 1);
    assert_eq!(nodes[1].parameters[0].0, "input");
    assert_eq!(nodes[1].parameters[0].1, "📁 /");
}

#[test]
fn graph_lays_entries_out_seven_to_a_row() {
    let entries: Vec<DirEntry> = (0..9)
        .map(|i| DirEntry {
            name: format!("e{i}"),
            path: format!("/top/e{i}"),
            is_dir: false,
            size: 0,
            permissions: 0o644,
            modified: String::new(),
        })
        .collect();
    let nodes = graph_nodes("/top", &entries);
    assert_eq!(nodes.len(), 11);
    assert_eq!(nodes[0].name, "📁 .. (/)");
    assert_eq!((nodes[0].column, nodes[0].row), (3, 0));
    assert_eq!((nodes[1].column, nodes[1].row), (3, 1));
    assert_eq!((nodes[2].column, nodes[2].row), (0, 2));
    assert_eq!((nodes[8].column, nodes[8].row), (6, 2));
    assert_eq!((nodes[9].column, nodes[9].row), (0, 3));
    assert_eq!(nodes[10].parameters[0].2, "string");
}

#[test]
fn graph_selection_follows_the_listing() {
    assert_eq!(selected_graph_node("/home/user", Some(0)), Some(2));
    assert_eq!(selected_graph_node("/", Some(0)), Some(1));
    assert_eq!(selected_graph_node("/", None), None);
    assert_eq!(graph_selection_update("/home", Some(1), Some(0), false), Some(Some(3)));
    assert_eq!(graph_selection_update("/home", Some(1), Some(3), false), None);
    assert_eq!(graph_selection_update("/home", Some(1), Some(0), true), None);
    assert_eq!(graph_selection_update("/home", None, Some(2), false), Some(None));
    assert_eq!(graph_selection_update("/home", None, Some(1), false), None);
}
