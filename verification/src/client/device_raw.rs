//! Handles for the raw channels of a device.

use vstd::prelude::*;
use crate::errors::{ButtplugError, ButtplugMessageError};
use crate::text::debug_text;
use crate::message::{
    ButtplugCurrentSpecClientMessage, ButtplugCurrentSpecServerMessage,
    ButtplugSpecV3ClientMessage, ButtplugSpecV3ServerMessage, ClientDeviceMessageAttributes,
    Endpoint, RawReadCmd, RawSubscribeCmd, RawUnsubscribeCmd, RawWriteCmd,
};

verus! {

/// The handle of one raw channel of a device.
#[derive(Debug, Clone, PartialEq, Eq)]
pub struct ButtplugDeviceRawEndpoint {
    pub endpoint: Endpoint,
    pub device_index: u32,
}

impl ButtplugDeviceRawEndpoint {
    /// Makes the handles of the raw channels of a device: one for each
    /// channel that can be read, in the order of the device's description.
    pub fn from_message_attributes(
        device_index: u32,
        attributes: &ClientDeviceMessageAttributes,
    ) -> (r: Vec<
        ButtplugDeviceRawEndpoint,
    >)
        ensures
            match attributes.raw_read_cmd {
                None => r@.len() == 0,
                Some(raw) => r@ == Seq::new(
                    raw.endpoints@.len(),
                    |i: int| ButtplugDeviceRawEndpoint { endpoint: raw.endpoints@[i], device_index },
                ),
            },
    {
        let mut endpoints: Vec<ButtplugDeviceRawEndpoint> = Vec::new();
        match &attributes.raw_read_cmd {
            Some(raw_attrs) => {
                let mut i: usize = 0;
                while i < raw_attrs.endpoints.len()
                    invariant
                        i <= raw_attrs.endpoints.len(),
                        endpoints@ == Seq::new(
                            i as nat,
                            |j: int|
                                ButtplugDeviceRawEndpoint {
                                    endpoint: raw_attrs.endpoints@[j],
                                    device_index,
                                },
                        ),
                    decreases raw_attrs.endpoints.len() - i,
                {
                    endpoints.push(
                        ButtplugDeviceRawEndpoint { endpoint: raw_attrs.endpoints[i], device_index },
                    );
                    assert(endpoints@ =~= Seq::new(
                        (i + 1) as nat,
                        |j: int|
                            ButtplugDeviceRawEndpoint {
                                endpoint: raw_attrs.endpoints@[j],
                                device_index,
                            },
                    ));
                    i = i + 1;
                }
            },
            None => {},
        }
        endpoints
    }

    /// Builds the command that writes bytes to the channel.
    pub fn write(
        &self,
        data: &[u8],
        write_with_response: bool,
    ) -> (r: ButtplugCurrentSpecClientMessage)
        ensures
            r matches ButtplugSpecV3ClientMessage::RawWriteCmd(cmd) && cmd.id == 1
                && cmd.device_index
                == self.device_index && cmd.endpoint == self.endpoint && cmd.data@ == data@
                && cmd.write_with_response == write_with_response,
    {
        ButtplugSpecV3ClientMessage::RawWriteCmd(
            RawWriteCmd::new(self.device_index, self.endpoint, data, write_with_response),
        )
    }

    /// Builds the command that reads bytes from the channel.
    pub fn read(&self, expected_length: u32, timeout: u32) -> (r: ButtplugCurrentSpecClientMessage)
        ensures
            r == ButtplugSpecV3ClientMessage::RawReadCmd(
                RawReadCmd {
                    id: 1,
                    device_index: self.device_index,
                    endpoint: self.endpoint,
                    expected_length,
                    timeout,
                },
            ),
    {
        ButtplugSpecV3ClientMessage::RawReadCmd(
            RawReadCmd::new(self.device_index, self.endpoint, expected_length, timeout),
        )
    }

    /// Reads the reply to a read: the bytes of a reading; the error that an
    /// error message stands for; and for any other message the failure that
    /// shows the message.
    pub fn read_reply(
        reply: ButtplugCurrentSpecServerMessage,
    ) -> (r: Result<Vec<u8>, ButtplugError>)
        ensures
            match reply {
                ButtplugSpecV3ServerMessage::RawReading(reading) => r == Ok::<
                    Vec<u8>,
                    ButtplugError,
                >(reading.data),
                ButtplugSpecV3ServerMessage::Error(err) => r == Err::<Vec<u8>, ButtplugError>(
                    ButtplugError::reported(err),
                ),
                _ => r matches Err(
                    ButtplugError::ButtplugMessageError(
                        ButtplugMessageError::UnexpectedMessageType(_),
                    ),
                ),
            },
    {
        match reply {
            ButtplugSpecV3ServerMessage::RawReading(reading) => Ok(reading.data),
            ButtplugSpecV3ServerMessage::Error(err) => Err(ButtplugError::from(err)),
            msg => Err(
                ButtplugError::ButtplugMessageError(
                    ButtplugMessageError::UnexpectedMessageType(debug_text(&msg)),
                ),
            ),
        }
    }

    /// Builds the command that asks for what the channel sends on its own
    /// account.
    pub fn subscribe(&self) -> (r: ButtplugCurrentSpecClientMessage)
        ensures
            r == ButtplugSpecV3ClientMessage::RawSubscribeCmd(
                RawSubscribeCmd { id: 1, device_index: self.device_index, endpoint: self.endpoint },
            ),
    {
        ButtplugSpecV3ClientMessage::RawSubscribeCmd(
            RawSubscribeCmd::new(self.device_index, self.endpoint),
        )
    }

    /// Builds the command that ends the subscription to the channel.
    pub fn unsubscribe(&self) -> (r: ButtplugCurrentSpecClientMessage)
        ensures
            r == ButtplugSpecV3ClientMessage::RawUnsubscribeCmd(
                RawUnsubscribeCmd { id: 1, device_index: self.device_index, endpoint: self.endpoint },
            ),
    {
        ButtplugSpecV3ClientMessage::RawUnsubscribeCmd(
            RawUnsubscribeCmd::new(self.device_index, self.endpoint),
        )
    }
}

} // verus!
