use cce_files::pages::Page;

#[test]
fn pages_in_order_with_labels_and_icons() {
    assert_eq!(Page::all(), [Page::Browse, Page::Network, Page::Space]);
    assert_eq!(Page::Browse.label(), "Browse");
    assert_eq!(Page::Network.label(), "Network");
    assert_eq!(Page::Space.label(), "Space");
    assert_eq!(Page::Browse.icon(), "📁");
    assert_eq!(Page::Network.icon(), "🌐");
    assert_eq!(Page::Space.icon(), "▦");
}
