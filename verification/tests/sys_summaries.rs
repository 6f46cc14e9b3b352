//! Tests for the CPU, memory and process aggregators against the live host.

use proc_hunter::get_cpu_brief_info;
use proc_hunter::get_memory_brief_info;
use proc_hunter::get_processes_brief_info;
use proc_hunter::read_cpu_brief_info;
use proc_hunter::refresh_cpu;
use proc_hunter::refresh_memory;
use proc_hunter::refresh_processes;
use proc_hunter::HostState;

fn bytes_to_mb(bytes: u64) -> f64 {
    (bytes as f64) / 1024.0 / 1024.0
}

fn bytes_to_gb(bytes: u64) -> f64 {
    bytes_to_mb(bytes) / 1024.0
}

#[test]
fn test_cpus() {
    let st = HostState::new();
    let (_, _, _, cpus) = read_cpu_brief_info(&st);
    assert!(!cpus.is_empty(), "CPUs should not be empty");
}

#[test]
fn test_total_memory() {
    let mut st = HostState::new();
    let (total_memory, _, _, _, _, _) = get_memory_brief_info(&mut st);

    println!("Total memory: {} bytes", total_memory);
    println!("Total memory: {:.2} MB", bytes_to_mb(total_memory));
    println!("Total memory: {:.2} GB", bytes_to_gb(total_memory));
}

#[test]
fn test_free_memory() {
    let mut st = HostState::new();
    let (_, free_memory, _, _, _, _) = get_memory_brief_info(&mut st);

    println!("Free memory: {} bytes", free_memory);
    println!("Free memory: {:.2} MB", bytes_to_mb(free_memory));
    println!("Free memory: {:.2} GB", bytes_to_gb(free_memory));
}

#[test]
fn test_used_memory() {
    let mut st = HostState::new();
    let (_, _, used_memory, _, _, _) = get_memory_brief_info(&mut st);

    println!("Used memory: {} bytes", used_memory);
    println!("Used memory: {:.2} MB", bytes_to_mb(used_memory));
    println!("Used memory: {:.2} GB", bytes_to_gb(used_memory));
}

#[test]
fn test_total_swap() {
    let mut st = HostState::new();
    let (_, _, _, total_swap, _, _) = get_memory_brief_info(&mut st);

    println!("Total swap: {} bytes", total_swap);
    println!("Total swap: {:.2} MB", bytes_to_mb(total_swap));
    println!("Total swap: {:.2} GB", bytes_to_gb(total_swap));
}

#[test]
fn test_free_swap() {
    let mut st = HostState::new();
    let (_, _, _, _, free_swap, _) = get_memory_brief_info(&mut st);

    println!("Free swap: {} bytes", free_swap);
    println!("Free swap: {:.2} MB", bytes_to_mb(free_swap));
    println!("Free swap: {:.2} GB", bytes_to_gb(free_swap));
}

#[test]
fn test_used_swap() {
    let mut st = HostState::new();
    let (_, _, _, _, _, used_swap) = get_memory_brief_info(&mut st);

    println!("Used swap: {} bytes", used_swap);
    println!("Used swap: {:.2} MB", bytes_to_mb(used_swap));
    println!("Used swap: {:.2} GB", bytes_to_gb(used_swap));
}

#[test]
fn test_global_cpu_usage() {
    let mut st = HostState::new();
    let (_, _, usage_bits, _) = get_cpu_brief_info(&mut st);
    let global_cpu_usage = f32::from_bits(usage_bits);

    println!("Global CPU usage: {:.2}%", global_cpu_usage * 1.0);
}

#[test]
fn test_processes() {
    let mut st = HostState::new();
    let (process_count, _) = get_processes_brief_info(&mut st);

    assert!(process_count > 0, "Processes should not be empty");
}

#[test]
fn test_refresh_processes() {
    let mut st = HostState::new();
    refresh_processes(&mut st);
    let (process_count, _) = get_processes_brief_info(&mut st);

    assert!(process_count > 0, "Processes should not be empty");
}

#[test]
fn test_refresh_memory() {
    let mut st = HostState::new();
    refresh_memory(&mut st);
    let (total_memory, _, _, _, _, _) = get_memory_brief_info(&mut st);

    println!("Total memory: {} bytes", total_memory);
    println!("Total memory: {:.2} MB", bytes_to_mb(total_memory));
    println!("Total memory: {:.2} GB", bytes_to_gb(total_memory));
}

#[test]
fn test_refresh_cpu() {
    let mut st = HostState::new();
    {
        let (_, _, _, cpus) = read_cpu_brief_info(&st);
        assert!(!cpus.is_empty(), "CPUs should not be empty");
    }
    refresh_cpu(&mut st);
    let (_, _, usage_bits, _) = read_cpu_brief_info(&st);
    let cpu_usage = f32::from_bits(usage_bits);

    println!("Global CPU usage: {:.2}%", cpu_usage * 1.0);
}

#[test]
fn test_cpu_brand() {
    let mut st = HostState::new();
    let (_, _, _, cpus) = get_cpu_brief_info(&mut st);
    let cpu_brand = &cpus[0].brand;

    println!("CPU brand: {:?}", cpu_brand);
}

#[test]
fn test_cpu_usage() {
    let mut st = HostState::new();
    {
        let (_, _, _, cpus) = get_cpu_brief_info(&mut st);
        assert!(!cpus.is_empty(), "CPUs should not be empty");
    }
    let (_, _, _, cpus) = get_cpu_brief_info(&mut st);
    let cpu_usage = f32::from_bits(cpus[0].usage_bits);

    println!("CPU usage: {:.2}%", cpu_usage);
}

#[test]
fn test_cpu_frequency() {
    let mut st = HostState::new();
    {
        let (_, _, _, cpus) = get_cpu_brief_info(&mut st);
        assert!(!cpus.is_empty(), "CPUs should not be empty");
    }
    let (_, _, _, cpus) = get_cpu_brief_info(&mut st);
    let cpu_frequency = cpus[0].frequency;

    println!("CPU frequency: {} MHz", cpu_frequency);
}

#[test]
fn test_cpu_name() {
    let mut st = HostState::new();
    let (_, _, _, cpus) = get_cpu_brief_info(&mut st);
    let cpu_name = &cpus[0].name;

    println!("CPU name: {:?}", cpu_name);
}
