use notify_core::plugin_store::{get_value, set_value};
use notify_core::repository::StorageConnection;

#[test]
fn plugin_store_keeps_the_last_value() {
    let mut connection = StorageConnection::new();
    let plugin = "plugin".to_string();
    let other = "other".to_string();
    let key = "key".to_string();
    assert_eq!(get_value(&connection, &plugin, &key), None);

    set_value(&mut connection, plugin.clone(), key.clone(), "1".to_string());
    set_value(&mut connection, other.clone(), key.clone(), "2".to_string());
    set_value(&mut connection, plugin.clone(), "key2".to_string(), "3".to_string());
    assert_eq!(get_value(&connection, &plugin, &key), Some("1".to_string()));
    assert_eq!(get_value(&connection, &other, &key), Some("2".to_string()));
    assert_eq!(
        get_value(&connection, &plugin, &"key2".to_string()),
        Some("3".to_string())
    );
    assert_eq!(get_value(&connection, &other, &"key2".to_string()), None);

    set_value(&mut connection, plugin.clone(), key.clone(), "4".to_string());
    assert_eq!(get_value(&connection, &plugin, &key), Some("4".to_string()));
    assert_eq!(get_value(&connection, &other, &key), Some("2".to_string()));
    assert_eq!(connection.plugin_store.len(), 3);

    // the partition and the key are two parts: "a" + "bc" is not "ab" + "c"
    set_value(&mut connection, "a".to_string(), "bc".to_string(), "5".to_string());
    assert_eq!(get_value(&connection, &"ab".to_string(), &"c".to_string()), None);
}

#[test]
fn plugin_store_reads_the_last_of_two_rows() {
    let mut connection = StorageConnection::new();
    for value in ["old", "new"] {
        connection
            .plugin_store
            .push(notify_core::repository::PluginStoreRow {
                plugin_name: "p".to_string(),
                key: "k".to_string(),
                value_string: value.to_string(),
            });
    }
    assert_eq!(
        get_value(&connection, &"p".to_string(), &"k".to_string()),
        Some("new".to_string())
    );
    set_value(&mut connection, "p".to_string(), "k".to_string(), "newer".to_string());
    assert_eq!(
        get_value(&connection, &"p".to_string(), &"k".to_string()),
        Some("newer".to_string())
    );
    assert_eq!(connection.plugin_store.len(), 2);
    assert_eq!(connection.plugin_store[0].value_string, "old");
}
