//! Integration tests for the Raspberry Pi hardware components
//!
//! These tests verify that the various Raspberry Pi hardware components
//! work well together. Since we can't directly test on real hardware in CI,
//! these tests use mocks to simulate the hardware.

use std::cell::RefCell;
use std::rc::Rc;
use std::sync::{Arc, Mutex};

use panasonic_ac::encoder::{Encoder, PanasonicEncoder};
use panasonic_ac::error::{Error, Result};
use panasonic_ac::hardware::{IrReceiver, IrTransmitter};
/// The factory interface that the hardware mocks below provide.
trait Hardware {
    fn create_transmitter(&self) -> Result<Box<dyn IrTransmitter>>;
    fn create_receiver(&self) -> Result<Box<dyn IrReceiver>>;
    fn create_sender(&self) -> Result<Box<dyn Fn(&[u8], u32, u16) -> Result<()>>>;
}
use panasonic_ac::types::{AcMode, FanSpeed, SwingV};
use panasonic_ac::{AcDevice, Device, PanasonicAc, PanasonicAcModel};

// Mock implementation of OutputPin for testing
struct MockOutputPin {
    state: Rc<RefCell<bool>>,
}

impl MockOutputPin {
    fn new() -> Self {
        Self {
            state: Rc::new(RefCell::new(false)),
        }
    }
    
    fn set_high(&mut self) {
        *self.state.borrow_mut() = true;
    }
    
    fn set_low(&mut self) {
        *self.state.borrow_mut() = false;
    }
    
    fn get_state(&self) -> bool {
        *self.state.borrow()
    }
}

// Mock implementation of InputPin for testing
struct MockInputPin {
    level_sequence: Vec<bool>,
    current_index: RefCell<usize>,
}

impl MockInputPin {
    fn new(level_sequence: Vec<bool>) -> Self {
        Self {
            level_sequence,
            current_index: RefCell::new(0),
        }
    }
    
    fn read(&self) -> bool {
        let current = *self.current_index.borrow();
        if current < self.level_sequence.len() {
            let level = self.level_sequence[current];
            *self.current_index.borrow_mut() += 1;
            level
        } else {
            // Default to high when out of sequence
            true
        }
    }
}

// Mock implementation of RpiHardware for integration testing
struct MockRpiHardwareIntegration {
    tx_pin: MockOutputPin,
    rx_pin: MockInputPin,
    encoder: PanasonicEncoder,
}

impl MockRpiHardwareIntegration {
    fn new(rx_levels: Vec<bool>) -> Self {
        Self {
            tx_pin: MockOutputPin::new(),
            rx_pin: MockInputPin::new(rx_levels),
            encoder: PanasonicEncoder::new(),
        }
    }
}

// Mock IR Transmitter that uses the mock output pin
struct MockPinTransmitter {
    pin: MockOutputPin,
    encoder: PanasonicEncoder,
}

impl MockPinTransmitter {
    fn new(pin: MockOutputPin) -> Self {
        Self {
            pin,
            encoder: PanasonicEncoder::new(),
        }
    }
}

impl IrTransmitter for MockPinTransmitter {
    fn send(&mut self, data: &[u8], freq: u32, repeat: u16) -> Result<()> {
        let signal = self.encoder.encode(data)?;
        
        if let Some(timings) = signal.timings {
            // Simulate sending by toggling the pin state
            // This is just for testing - in real code it would modulate the carrier
            for (i, &duration) in timings.iter().enumerate() {
                if duration == 0 {
                    continue;
                }
                
                if i % 2 == 0 {
                    // Mark - set pin high
                    self.pin.set_high();
                } else {
                    // Space - set pin low
                    self.pin.set_low();
                }
            }
            
            // Ensure pin is low at the end
            self.pin.set_low();
            
            Ok(())
        } else {
            Err(Error::HardwareError("No timings available".to_string()))
        }
    }
    
    fn cleanup(&mut self) -> Result<()> {
        self.pin.set_low();
        Ok(())
    }
}

// Mock IR Receiver that uses the mock input pin
struct MockPinReceiver {
    pin: MockInputPin,
}

impl MockPinReceiver {
    fn new(pin: MockInputPin) -> Self {
        Self { pin }
    }
}

impl IrReceiver for MockPinReceiver {
    fn receive(&mut self, _timeout_ms: u32) -> Result<Vec<u16>> {
        // Fixed simulated timings for testing
        // In a real implementation, these would be derived from pin state changes
        let timings = vec![3456, 1728, 432, 432, 432, 1296, 432, 432, 432, 1296];
        Ok(timings)
    }
    
    fn cleanup(&mut self) -> Result<()> {
        Ok(())
    }
}

impl Hardware for MockRpiHardwareIntegration {
    fn create_transmitter(&self) -> Result<Box<dyn IrTransmitter>> {
        Ok(Box::new(MockPinTransmitter::new(MockOutputPin::new())))
    }
    
    fn create_receiver(&self) -> Result<Box<dyn IrReceiver>> {
        let pin = MockInputPin::new(vec![true, false, true, false]);
        Ok(Box::new(MockPinReceiver::new(pin)))
    }
    
    fn create_sender(&self) -> Result<Box<dyn Fn(&[u8], u32, u16) -> Result<()> + 'static>> {
        let transmitter = Arc::new(Mutex::new(MockPinTransmitter::new(MockOutputPin::new())));
        
        Ok(Box::new(move |data: &[u8], _freq: u32, _repeat: u16| -> Result<()> {
            let mut tx = transmitter.lock().unwrap();
            tx.send(data, 36700, 0)
        }))
    }
}

#[test]
fn test_rpi_hardware_integration() {
    // Create mock hardware
    let hardware = MockRpiHardwareIntegration::new(vec![true, false, true, false]);
    
    // Create AC using hardware sender
    let sender = hardware.create_sender().unwrap();
    let mut ac = PanasonicAc::new(move |data, freq, repeat| sender(data, freq, repeat));
    
    // Configure and send commands
    ac.set_model(PanasonicAcModel::Dke).unwrap();
    ac.set_power(true).unwrap();
    ac.set_mode(AcMode::Cool).unwrap();
    ac.set_temp(23).unwrap();
    ac.set_fan(FanSpeed::Auto).unwrap();
    
    // Send should succeed
    assert!(ac.send().is_ok());
    
    // Create receiver and test receiving
    let mut receiver = hardware.create_receiver().unwrap();
    let received = receiver.receive(1000).unwrap();
    
    // Should receive some timing data
    assert!(!received.is_empty());
}

#[test]
fn test_rpi_ac_state_changes() {
    // Create mock hardware
    let hardware = MockRpiHardwareIntegration::new(vec![true, false, true, false]);
    
    // Create an AC instance
    let sender = hardware.create_sender().unwrap();
    let mut ac = PanasonicAc::new(move |data, freq, repeat| sender(data, freq, repeat));
    
    // Configure initial state
    ac.set_model(PanasonicAcModel::Dke).unwrap();
    ac.set_power(true).unwrap();
    ac.set_mode(AcMode::Cool).unwrap();
    ac.set_temp(23).unwrap();
    
    // First command
    assert!(ac.send().is_ok());
    
    // Change some settings
    ac.set_temp(25).unwrap();
    ac.set_mode(AcMode::Heat).unwrap();
    
    // Second command
    assert!(ac.send().is_ok());
    
    // Verify final state is as expected
    assert_eq!(ac.get_power(), true);
    assert_eq!(ac.get_mode().unwrap(), AcMode::Heat);
    assert_eq!(ac.get_temp(), 25);
}

#[test]
fn test_full_ac_cycle() {
    // Create mock hardware
    let hardware = MockRpiHardwareIntegration::new(vec![true, false, true, false]);
    
    // Create an AC instance
    let sender = hardware.create_sender().unwrap();
    let mut ac = PanasonicAc::new(move |data, freq, repeat| sender(data, freq, repeat));
    
    // Turn AC on with cooling
    ac.set_model(PanasonicAcModel::Dke).unwrap();
    ac.set_power(true).unwrap();
    ac.set_mode(AcMode::Cool).unwrap();
    ac.set_temp(23).unwrap();
    assert!(ac.send().is_ok());
    
    // Change temperature
    ac.set_temp(22).unwrap();
    assert!(ac.send().is_ok());
    
    // Change to powerful mode
    ac.set_powerful(true).unwrap();
    assert!(ac.send().is_ok());
    
    // Turn off
    ac.set_power(false).unwrap();
    assert!(ac.send().is_ok());
    
    // Verify off state
    assert_eq!(ac.get_power(), false);
}