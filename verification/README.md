# WatchDesk

A Windows service that publishes the state of a PC to Home Assistant over MQTT:
whether it is online, whether its monitor is on, how busy its CPU is and, with
AMD's Ryzen Master SDK, how warm it is. The library is verified with Verus.

## Layout

- `src/` is the verified library. It takes events in and hands actions out.
  - `mqtt.rs`: what is published and when, as a state machine
  - `topics.rs`, `discovery.rs`: topics and Home Assistant's discovery documents
  - `broker.rs`, `json.rs`: the calls into `rumqttc` and `serde_json`
  - `monitor.rs`, `metrics.rs`: the monitor's power and the CPU temperature
  - `config.rs`: the configuration and its defaults
  - `service.rs`, `startup.rs`, `install.rs`, `status.rs`: the life of the service
  - `text.rs`: trimming, lines, numbers and encodings
  - `laws.rs`: what holds of every event, every state and every run
- `app/` is the program around it: the command line, files, the network, and the
  Windows API.
- `tests/` runs the library.

## What is taken on trust

The functions marked `external_body` and the `assume_specification` items, in
`broker.rs`, `json.rs` and `text.rs`. Each says in its comment which function it
stands for and what is claimed of it.
