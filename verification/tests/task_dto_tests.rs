use task_workflow::application::dto::{CreateTaskRequest, TaskDto, UpdateTaskRequest};
use task_workflow::domain::{Task, TaskId, TaskStatus, Timestamp};

fn create_dto_test_task(id: i32, name: &str, priority: Option<i32>) -> Task {
    Task::new(TaskId::new(id), name.to_string(), priority).unwrap()
}

#[test]
fn test_task_dto_from_task() {
    let task = create_dto_test_task(1, "Test Task", Some(5));
    let dto = TaskDto::from(task);

    assert_eq!(dto.id, 1);
    assert_eq!(dto.name, "Test Task");
    assert_eq!(dto.priority, Some(5));
}

#[test]
fn test_task_dto_from_task_no_priority() {
    let task = create_dto_test_task(2, "No Priority Task", None);
    let dto = TaskDto::from(task);

    assert_eq!(dto.id, 2);
    assert_eq!(dto.name, "No Priority Task");
    assert_eq!(dto.priority, None);
}

#[test]
fn test_task_from_task_dto_success() {
    let dto = TaskDto {
        id: 3,
        name: "Valid Task".to_string(),
        priority: Some(7),
        status: TaskStatus::Pending,
        created_at: Timestamp::now(),
        updated_at: Timestamp::now(),
    };

    let task = Task::try_from(dto).unwrap();
    assert_eq!(task.id.value(), 3);
    assert_eq!(task.name, "Valid Task");
    assert_eq!(task.priority, Some(7));
}

#[test]
fn test_task_from_task_dto_invalid_name() {
    let dto = TaskDto {
        id: 4,
        name: "".to_string(), // Invalid empty name
        priority: Some(3),
        status: TaskStatus::Pending,
        created_at: Timestamp::now(),
        updated_at: Timestamp::now(),
    };

    let result = Task::try_from(dto);
    assert!(result.is_err());
    assert_eq!(result.unwrap_err(), "Task name cannot be empty");
}

#[test]
fn test_task_from_task_dto_invalid_priority() {
    let dto = TaskDto {
        id: 5,
        name: "Valid Name".to_string(),
        priority: Some(11), // Invalid priority
        status: TaskStatus::Pending,
        created_at: Timestamp::now(),
        updated_at: Timestamp::now(),
    };

    let result = Task::try_from(dto);
    assert!(result.is_err());
    assert_eq!(result.unwrap_err(), "Priority must be between 1 and 10");
}

#[test]
fn test_create_task_request_debug() {
    let request = CreateTaskRequest {
        name: "Debug Test".to_string(),
        priority: Some(9),
    };

    let debug_output = format!("{:?}", request);
    assert!(debug_output.contains("CreateTaskRequest"));
    assert!(debug_output.contains("Debug Test"));
    assert!(debug_output.contains("9"));
}

#[test]
fn test_update_task_request_debug() {
    let request = UpdateTaskRequest {
        name: Some("Debug Update".to_string()),
        priority: None,
    };

    let debug_output = format!("{:?}", request);
    assert!(debug_output.contains("UpdateTaskRequest"));
    assert!(debug_output.contains("Debug Update"));
}

#[test]
fn test_task_dto_roundtrip_conversion() {
    let original_task = create_dto_test_task(10, "Roundtrip Test", Some(3));
    let dto = TaskDto::from(original_task.clone());
    let converted_task = Task::try_from(dto).unwrap();

    assert_eq!(original_task.id, converted_task.id);
    assert_eq!(original_task.name, converted_task.name);
    assert_eq!(original_task.priority, converted_task.priority);
}

#[test]
fn test_task_dto_with_negative_id() {
    let task = create_dto_test_task(-1, "Negative ID Task", Some(1));
    let dto = TaskDto::from(task);

    assert_eq!(dto.id, -1);
    assert_eq!(dto.name, "Negative ID Task");
}

