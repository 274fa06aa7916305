use playground::asset_manager::AssetManager;
use playground::resource::ResourceManager;

struct TestAsset {
    value: u32,
}

struct TestResource {
    value: u32,
}

#[test]
fn create_asset() {
    let asset = TestAsset { value: 100 };
    let mut asset_manager = AssetManager::new();
    let asset_handle = asset_manager.create_asset(asset);
    let fetched = asset_manager.get_asset(asset_handle);
    assert_eq!(fetched.unwrap().asset.value, 100);
}

#[test]
fn create_get_resource() {
    let resource = TestResource { value: 100 };
    let mut rm = ResourceManager::new();
    let resource_index = rm.create_resource(resource);
    let fetched = rm.get_resource(resource_index);
    assert_eq!(fetched.value, 100);
}

// A handle resolves only in the cache that minted it, and always to the
// asset it was minted for; a handle the cache never minted yields nothing.
#[test]
fn handles_stay_bound_to_their_asset() {
    let mut big = AssetManager::new();
    let h0 = big.create_asset(TestAsset { value: 1 });
    let h1 = big.create_asset(TestAsset { value: 2 });
    assert_eq!(big.get_asset(h0).unwrap().asset.value, 1);
    assert_eq!(big.get_asset(h1).unwrap().asset.value, 2);
    assert_eq!(big.len(), 2);

    let mut small = AssetManager::new();
    let _ = small.create_asset(TestAsset { value: 9 });
    assert!(small.get_asset(h1).is_none());
}

#[test]
fn resources_keep_creation_order() {
    let mut rm = ResourceManager::new();
    let i0 = rm.create_resource(TestResource { value: 5 });
    let i1 = rm.create_resource(TestResource { value: 6 });
    assert_eq!(i0, 0);
    assert_eq!(i1, 1);
    assert_eq!(rm.get_resource(i0).value, 5);
    assert_eq!(rm.get_resource(i1).value, 6);
    assert_eq!(rm.len(), 2);
}
