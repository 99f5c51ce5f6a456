use std::mem;

#[allow(dead_code)]
struct Alignment {
    id: u8,
    count: f64,
}

#[test]
fn check_memory_alignment() {
    // because of memory alignment the size of Alignment is 16 bytes instead of 9 bytes
    let mem_size = mem::size_of::<Alignment>();
    println!("memory size: {}", mem_size);
    assert_eq!(mem_size, 16);
}

#[test]
fn it_works() {
    let result = 2 + 2;
    assert_eq!(result, 4);
}
