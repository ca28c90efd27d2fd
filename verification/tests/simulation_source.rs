use ondo::fixed::Milli;
use ondo::model::{CpuCoreData, FanData, StorageData};
use ondo::simulation::{draw, simulated_hardware_info, SIMULATED_CORES, SIMULATION_DRAWS};

fn m(v: i128) -> Milli {
    Milli::new(v)
}

#[test]
fn draws_are_fractions_in_thousandths() {
    let draws = vec![0, 999, 1000, 1234567, u64::MAX];
    assert_eq!(draw(&draws, 0), 0);
    assert_eq!(draw(&draws, 1), 999);
    assert_eq!(draw(&draws, 2), 0);
    assert_eq!(draw(&draws, 3), 567);
    assert_eq!(draw(&draws, 4), (u64::MAX % 1000) as i128);
    assert_eq!(draw(&draws, 5), 0);
}

#[test]
fn simulation_with_lowest_draws() {
    assert_eq!(SIMULATION_DRAWS, 35);
    assert_eq!(SIMULATED_CORES, 12);
    let s = simulated_hardware_info(42, &vec![0; 35]);
    assert_eq!(s.timestamp, 42);
    assert_eq!(s.cpu_error, None);
    assert_eq!(s.gpu_error, None);
    let cpu = s.cpu.unwrap();
    assert_eq!(cpu.name, "AMD Ryzen 9 5900X");
    assert_eq!(cpu.temperature, m(45_000));
    assert_eq!(cpu.max_temperature, m(95_000));
    assert_eq!(cpu.load, m(20_000));
    assert_eq!(cpu.frequency, m(3_700));
    assert_eq!(cpu.cores.len(), 12);
    for (i, core) in cpu.cores.iter().enumerate() {
        assert_eq!(*core, CpuCoreData { index: i as u32, temperature: m(40_000), load: m(0) });
    }
    let gpu = s.gpu.unwrap();
    assert_eq!(gpu.name, "NVIDIA GeForce RTX 3080");
    assert_eq!(gpu.temperature, m(50_000));
    assert_eq!(gpu.max_temperature, m(93_000));
    assert_eq!(gpu.load, m(15_000));
    assert_eq!(gpu.frequency, m(1_700));
    assert_eq!(gpu.memory_used, m(4_000));
    assert_eq!(gpu.memory_total, m(10_000));
    assert_eq!(
        s.storage,
        Some(vec![StorageData {
            name: "Samsung SSD 980 PRO 1TB".to_string(),
            temperature: m(35_000),
            used_space: m(500_000),
            total_space: m(1_000_000),
        }])
    );
    let board = s.motherboard.unwrap();
    assert_eq!(board.name, "ASUS ROG STRIX B550-F");
    assert_eq!(board.temperature, m(40_000));
    assert_eq!(
        board.fans,
        vec![
            FanData { name: "CPU Fan".to_string(), speed: 1200 },
            FanData { name: "Chassis Fan 1".to_string(), speed: 800 },
        ]
    );
}

#[test]
fn simulation_with_highest_draws() {
    let s = simulated_hardware_info(1, &vec![999; 35]);
    let cpu = s.cpu.unwrap();
    assert_eq!(cpu.temperature, m(64_980));
    assert_eq!(cpu.load, m(59_960));
    assert_eq!(cpu.frequency, m(4_699));
    assert_eq!(cpu.cores[11], CpuCoreData { index: 11, temperature: m(69_970), load: m(99_900) });
    let gpu = s.gpu.unwrap();
    assert_eq!(gpu.temperature, m(74_975));
    assert_eq!(gpu.load, m(64_950));
    assert_eq!(gpu.frequency, m(2_199));
    assert_eq!(gpu.memory_used, m(7_996));
    assert_eq!(s.storage.unwrap()[0].temperature, m(44_990));
    let board = s.motherboard.unwrap();
    assert_eq!(board.temperature, m(54_985));
    assert_eq!(board.fans[0].speed, 1699);
    assert_eq!(board.fans[1].speed, 1099);
}

#[test]
fn simulation_takes_each_draw_once_in_order() {
    let draws: Vec<u64> = (0..35).map(|k| 10 * k).collect();
    let s = simulated_hardware_info(1, &draws);
    let cpu = s.cpu.unwrap();
    assert_eq!(cpu.temperature, m(45_000));
    assert_eq!(cpu.load, m(20_000 + 20 * 40));
    assert_eq!(cpu.frequency, m(3_700 + 30));
    assert_eq!(cpu.cores[0], CpuCoreData { index: 0, temperature: m(45_000 + (40 - 500) * 10), load: m(50 * 100) });
    assert_eq!(cpu.cores[11], CpuCoreData { index: 11, temperature: m(45_000 + (260 - 500) * 10), load: m(270 * 100) });
    let gpu = s.gpu.unwrap();
    assert_eq!(gpu.temperature, m(50_000 + 10 * 25));
    assert_eq!(gpu.load, m(15_000 + 280 * 50));
    assert_eq!(gpu.frequency, m(1_700 + 145));
    assert_eq!(gpu.memory_used, m(4_000 + 300 * 4));
    assert_eq!(s.storage.unwrap()[0].temperature, m(35_000 + 310 * 10));
    let board = s.motherboard.unwrap();
    assert_eq!(board.temperature, m(40_000 + 320 * 15));
    assert_eq!(board.fans[0].speed, 1200 + 165);
    assert_eq!(board.fans[1].speed, 800 + 102);
}

#[test]
fn simulation_without_draws_still_answers() {
    let s = simulated_hardware_info(3, &vec![]);
    assert_eq!(s, simulated_hardware_info(3, &vec![0; 35]));
    assert_eq!(simulated_hardware_info(3, &vec![5; 40]), simulated_hardware_info(3, &vec![5; 35]));
}
